//! The marketplace as a mathematical state machine.
//!
//! `GigState` is what the store holds, as maps; each operation is a spec
//! function from a state (and the caller, the time and the arguments) to the
//! next state and the operation's result.  The executable `Gig` is proved to
//! follow these functions exactly.
use vstd::prelude::*;

use crate::types::{Escrow, GigError, GigStatus, Listing, Order, Payout, PayoutKind};

verus! {

/// Numerator of the deposit ratio: a buyer deposits `price * 12 / 10`.
pub const TOTAL_NUMERATOR: u128 = 12;

/// Denominator of the deposit ratio.
pub const DENOMINATOR: u128 = 10;

/// Time units that a buyer has to accept a delivery.
pub const TIME_TO_ACCEPT_DELIVERY: u64 = 50;

/// The whole persisted state.
pub struct GigState {
    pub owner: u64,
    /// Listings by `(seller, gig_id)`.
    pub listings: Map<(u64, u64), Listing>,
    /// Escrow records by `(buyer, seller, gig_id)`.
    pub escrows: Map<(u64, u64, u64), Escrow>,
}

/// The exact deposit for a gig of this price: `price * 12 / 10`, rounded down.
pub open spec fn required_payment(price: u128) -> int {
    price as int * TOTAL_NUMERATOR as int / DENOMINATOR as int
}

/// `now + span`, or the end of the clock where that lies beyond it.  The clock
/// never passes `u64::MAX`, so no comparison with a time can tell the two apart.
pub open spec fn deadline_after(now: u64, span: u64) -> u64 {
    if now as int + span as int > u64::MAX as int {
        u64::MAX
    } else {
        (now + span) as u64
    }
}

/// The status of the listing at `k`, or `None` where there is no listing.
pub open spec fn status_of(s: GigState, k: (u64, u64)) -> Option<GigStatus> {
    if s.listings.contains_key(k) {
        Some(s.listings[k].order.status)
    } else {
        None
    }
}

/// `s` with the listing at `k` moved to status `st`.
pub open spec fn with_status(s: GigState, k: (u64, u64), st: GigStatus) -> GigState {
    let l = s.listings[k];
    let o = Order { status: st, ..l.order };
    GigState { listings: s.listings.insert(k, Listing { order: o, ..l }), ..s }
}

/// `s` without the escrow record at `e`.
pub open spec fn without_escrow(s: GigState, e: (u64, u64, u64)) -> GigState {
    GigState { escrows: s.escrows.remove(e), ..s }
}

/// Escrow records belong to live orders: a record at `(b, s, g)` exists only
/// while listing `(s, g)` is in order or delivered, and `b` is its buyer, so a
/// listing has at most one.
pub open spec fn escrow_consistent(s: GigState) -> bool {
    forall|ek: (u64, u64, u64)| #[trigger]
        s.escrows.contains_key(ek) ==> {
            let k = (ek.1, ek.2);
            &&& s.listings.contains_key(k)
            &&& (s.listings[k].order.status == GigStatus::InOrder
                || s.listings[k].order.status == GigStatus::Delivered)
            &&& s.listings[k].buyer == ek.0
        }
}

/// A fresh marketplace owned by `owner`.
pub open spec fn init_spec(owner: u64) -> GigState {
    GigState { owner, listings: Map::empty(), escrows: Map::empty() }
}

/// A seller lists a gig that it has not listed yet.
pub open spec fn list_spec(
    s: GigState,
    seller: u64,
    gig_id: u64,
    delivery_time: u64,
    price: u128,
) -> (GigState, Result<(), GigError>) {
    let k = (seller, gig_id);
    if s.listings.contains_key(k) {
        (s, Err(GigError::AlreadyListed))
    } else {
        let o = Order { gig_id, delivery_time, price, status: GigStatus::Open };
        let l = Listing { seller, order: o, buyer: 0, accept_deadline: 0 };
        (GigState { listings: s.listings.insert(k, l), ..s }, Ok(()))
    }
}

/// A seller takes an open listing down.
pub open spec fn unlist_spec(s: GigState, seller: u64, gig_id: u64) -> (
    GigState,
    Result<(), GigError>,
) {
    let k = (seller, gig_id);
    if !s.listings.contains_key(k) {
        (s, Err(GigError::NoSuchListing))
    } else if s.listings[k].order.status != GigStatus::Open {
        (s, Err(GigError::ListingBusy))
    } else {
        (GigState { listings: s.listings.remove(k), ..s }, Ok(()))
    }
}

/// A seller delivers an ordered gig, which opens the window for acceptance.
pub open spec fn deliver_spec(s: GigState, seller: u64, now: u64, gig_id: u64) -> (
    GigState,
    Result<(), GigError>,
) {
    let k = (seller, gig_id);
    match status_of(s, k) {
        Some(GigStatus::InOrder) => {
            let l = s.listings[k];
            let o = Order { status: GigStatus::Delivered, ..l.order };
            let d = deadline_after(now, TIME_TO_ACCEPT_DELIVERY);
            let l2 = Listing { order: o, accept_deadline: d, ..l };
            (GigState { listings: s.listings.insert(k, l2), ..s }, Ok(()))
        },
        Some(GigStatus::Delivered) => (s, Err(GigError::AlreadyDelivered)),
        _ => (s, Err(GigError::InvalidState)),
    }
}

/// A seller collects the price of an accepted delivery, or of a delivery
/// whose acceptance window has run out; either way the order is settled and
/// its buyer's escrow record is gone.
pub open spec fn claim_spec(s: GigState, seller: u64, now: u64, gig_id: u64) -> (
    GigState,
    Result<Payout, GigError>,
) {
    let k = (seller, gig_id);
    let l = s.listings[k];
    let pay = Payout { to: seller, amount: l.order.price, kind: PayoutKind::PaymentSent };
    let settled = without_escrow(with_status(s, k, GigStatus::Open), (l.buyer, seller, gig_id));
    match status_of(s, k) {
        Some(GigStatus::DeliveryAccepted) => (settled, Ok(pay)),
        Some(GigStatus::Delivered) => if now > l.accept_deadline {
            (settled, Ok(pay))
        } else {
            (s, Err(GigError::BuyerStillHasTime))
        },
        _ => (s, Err(GigError::NothingToClaim)),
    }
}

/// A buyer orders an open gig, depositing exactly `required_payment(price)`.
pub open spec fn order_spec(
    s: GigState,
    buyer: u64,
    now: u64,
    payment: u128,
    gig_id: u64,
    seller: u64,
) -> (GigState, Result<(), GigError>) {
    let k = (seller, gig_id);
    if status_of(s, k) != Some(GigStatus::Open) {
        (s, Err(GigError::GigNotAvailable))
    } else if payment as int != required_payment(s.listings[k].order.price) {
        (s, Err(GigError::WrongPaymentAmount))
    } else {
        let l = s.listings[k];
        let deadline = deadline_after(now, l.order.delivery_time);
        let e = Escrow { buyer, seller, gig_id, payment, deadline };
        let o = Order { status: GigStatus::InOrder, ..l.order };
        let l2 = Listing { order: o, buyer, ..l };
        (
            GigState {
                listings: s.listings.insert(k, l2),
                escrows: s.escrows.insert((buyer, seller, gig_id), e),
                ..s
            },
            Ok(()),
        )
    }
}

/// A buyer whose gig was not delivered in time takes the whole deposit back.
pub open spec fn refund_spec(s: GigState, buyer: u64, now: u64, gig_id: u64, seller: u64) -> (
    GigState,
    Result<Payout, GigError>,
) {
    let k = (seller, gig_id);
    let ek = (buyer, seller, gig_id);
    if status_of(s, k) != Some(GigStatus::InOrder) {
        (s, Err(GigError::RefundNotAllowed))
    } else if !s.escrows.contains_key(ek) {
        (s, Err(GigError::NotPayer))
    } else if now <= s.escrows[ek].deadline {
        (s, Err(GigError::SellerStillHasTime))
    } else {
        let pay = Payout { to: buyer, amount: s.escrows[ek].payment, kind: PayoutKind::Refund };
        (without_escrow(with_status(s, k, GigStatus::Open), ek), Ok(pay))
    }
}

/// A paying buyer cancels an order in progress and gets the price back; the
/// collateral is withheld.
pub open spec fn dispute_spec(s: GigState, buyer: u64, gig_id: u64, seller: u64) -> (
    GigState,
    Result<Payout, GigError>,
) {
    let k = (seller, gig_id);
    let ek = (buyer, seller, gig_id);
    if status_of(s, k) != Some(GigStatus::InOrder) && status_of(s, k) != Some(
        GigStatus::Delivered,
    ) {
        (s, Err(GigError::DisputeNotAllowed))
    } else if !s.escrows.contains_key(ek) {
        (s, Err(GigError::NotPayer))
    } else {
        let pay = Payout {
            to: buyer,
            amount: s.listings[k].order.price,
            kind: PayoutKind::DisputeRefund,
        };
        (without_escrow(with_status(s, k, GigStatus::Open), ek), Ok(pay))
    }
}

/// The paying buyer accepts a delivery in time and gets the collateral back.
pub open spec fn accept_spec(s: GigState, buyer: u64, now: u64, gig_id: u64, seller: u64) -> (
    GigState,
    Result<Payout, GigError>,
) {
    let k = (seller, gig_id);
    let ek = (buyer, seller, gig_id);
    let price = s.listings[k].order.price;
    if status_of(s, k) != Some(GigStatus::Delivered) {
        (s, Err(GigError::NothingToAccept))
    } else if now > s.listings[k].accept_deadline {
        (s, Err(GigError::AcceptanceWindowExpired))
    } else if !s.escrows.contains_key(ek) || s.escrows[ek].payment as int != required_payment(
        price,
    ) {
        (s, Err(GigError::NotPayer))
    } else {
        let pay = Payout {
            to: buyer,
            amount: (s.escrows[ek].payment - price) as u128,
            kind: PayoutKind::DepositRefund,
        };
        (without_escrow(with_status(s, k, GigStatus::DeliveryAccepted), ek), Ok(pay))
    }
}

/// One call into the marketplace, with its explicit arguments.
pub enum Operation {
    List { gig_id: u64, delivery_time: u64, price: u128 },
    Unlist { gig_id: u64 },
    Deliver { gig_id: u64 },
    Claim { gig_id: u64 },
    Order { payment: u128, gig_id: u64, seller: u64 },
    Refund { gig_id: u64, seller: u64 },
    Dispute { gig_id: u64, seller: u64 },
    Accept { gig_id: u64, seller: u64 },
}

pub open spec fn lift_unit(p: (GigState, Result<(), GigError>)) -> (
    GigState,
    Result<Option<Payout>, GigError>,
) {
    (
        p.0,
        match p.1 {
            Ok(_) => Ok(None),
            Err(e) => Err(e),
        },
    )
}

pub open spec fn lift_payout(p: (GigState, Result<Payout, GigError>)) -> (
    GigState,
    Result<Option<Payout>, GigError>,
) {
    (
        p.0,
        match p.1 {
            Ok(x) => Ok(Some(x)),
            Err(e) => Err(e),
        },
    )
}

/// The effect of `op`, made by `caller` at time `now`, on `s`.
pub open spec fn step(s: GigState, caller: u64, now: u64, op: Operation) -> (
    GigState,
    Result<Option<Payout>, GigError>,
) {
    match op {
        Operation::List { gig_id, delivery_time, price } => lift_unit(
            list_spec(s, caller, gig_id, delivery_time, price),
        ),
        Operation::Unlist { gig_id } => lift_unit(unlist_spec(s, caller, gig_id)),
        Operation::Deliver { gig_id } => lift_unit(deliver_spec(s, caller, now, gig_id)),
        Operation::Claim { gig_id } => lift_payout(claim_spec(s, caller, now, gig_id)),
        Operation::Order { payment, gig_id, seller } => lift_unit(
            order_spec(s, caller, now, payment, gig_id, seller),
        ),
        Operation::Refund { gig_id, seller } => lift_payout(
            refund_spec(s, caller, now, gig_id, seller),
        ),
        Operation::Dispute { gig_id, seller } => lift_payout(
            dispute_spec(s, caller, gig_id, seller),
        ),
        Operation::Accept { gig_id, seller } => lift_payout(
            accept_spec(s, caller, now, gig_id, seller),
        ),
    }
}

/// The moves of a listing's status that the order cycle allows, staying put
/// included; `None` stands for "not listed".
pub open spec fn allowed_move(from: Option<GigStatus>, to: Option<GigStatus>) -> bool {
    from == to || match (from, to) {
        (None, Some(GigStatus::Open)) => true,
        (Some(GigStatus::Open), None) => true,
        (Some(GigStatus::Open), Some(GigStatus::InOrder)) => true,
        (Some(GigStatus::InOrder), Some(GigStatus::Delivered)) => true,
        (Some(GigStatus::InOrder), Some(GigStatus::Open)) => true,
        (Some(GigStatus::Delivered), Some(GigStatus::Open)) => true,
        (Some(GigStatus::Delivered), Some(GigStatus::DeliveryAccepted)) => true,
        (Some(GigStatus::DeliveryAccepted), Some(GigStatus::Open)) => true,
        _ => false,
    }
}

} // verus!
