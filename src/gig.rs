//! The executable marketplace, proved to follow the state machine of
//! `crate::machine` operation by operation.
use vstd::prelude::*;

use crate::machine::{
    accept_spec, claim_spec, deadline_after, deliver_spec, dispute_spec, init_spec, list_spec,
    order_spec, refund_spec, required_payment, unlist_spec, with_status, without_escrow,
    escrow_consistent, GigState, Operation, TIME_TO_ACCEPT_DELIVERY,
};
use crate::laws::lemma_step_keeps_escrow_consistent;
use crate::table::{
    keys_unique, lemma_push, lemma_remove, lemma_update, lemma_view_absent, lemma_view_index,
    table_view,
};
use crate::types::{
    escrow_key, escrow_key_fn, listing_key, listing_key_fn, Escrow, GigError, GigStatus, Listing,
    Order, Payout, PayoutKind,
};

verus! {

/// The marketplace: an owner, the listing store and the escrow store.
pub struct Gig {
    owner: u64,
    listings: Vec<Listing>,
    escrows: Vec<Escrow>,
}

impl View for Gig {
    type V = GigState;

    closed spec fn view(&self) -> GigState {
        GigState {
            owner: self.owner,
            listings: table_view(self.listings@, listing_key_fn()),
            escrows: table_view(self.escrows@, escrow_key_fn()),
        }
    }
}

/// `price * 12 / 10` is `price + price / 5`.
proof fn lemma_required_payment(price: u128)
    ensures
        required_payment(price) == price as int + price as int / 5,
{
    let p = price as int;
    let q = p / 5;
    let r = p % 5;
    assert(p == 5 * q + r && 0 <= r < 5);
    assert((p * 12) / 10 == p + q) by (nonlinear_arith)
        requires
            p == 5 * q + r,
            0 <= r < 5,
    ;
}

/// `required_payment(price)`, or `None` where it does not fit in a `u128`.
fn required_payment_of(price: u128) -> (r: Option<u128>)
    ensures
        match r {
            Some(v) => v as int == required_payment(price),
            None => required_payment(price) > u128::MAX,
        },
{
    proof {
        lemma_required_payment(price);
    }
    price.checked_add(price / 5)
}

/// `deadline_after`, computed.
fn add_deadline(now: u64, span: u64) -> (r: u64)
    ensures
        r == deadline_after(now, span),
{
    now.saturating_add(span)
}

impl Gig {
    /// The stores hold at most one row per key.
    closed spec fn tables_ok(&self) -> bool {
        &&& keys_unique(self.listings@, listing_key_fn())
        &&& keys_unique(self.escrows@, escrow_key_fn())
    }

    /// The stores hold at most one row per key, and every escrow record
    /// belongs to its listing's live order.
    pub closed spec fn wf(&self) -> bool {
        &&& self.tables_ok()
        &&& escrow_consistent(self@)
    }

    /// A fresh marketplace, recording `owner` as its owner.
    pub fn init(owner: u64) -> (r: Gig)
        ensures
            r.wf(),
            r@ == init_spec(owner),
    {
        let r = Gig { owner, listings: Vec::new(), escrows: Vec::new() };
        assert(r@.listings =~= Map::empty());
        assert(r@.escrows =~= Map::empty());
        r
    }

    /// Index of the listing at `(seller, gig_id)`.
    fn find_listing(&self, seller: u64, gig_id: u64) -> (r: Option<usize>)
        requires
            self.tables_ok(),
        ensures
            match r {
                Some(i) => i < self.listings@.len() && listing_key(self.listings@[i as int]) == (
                    seller,
                    gig_id,
                ) && self@.listings.contains_key((seller, gig_id)) && self@.listings[(
                    seller,
                    gig_id,
                )] == self.listings@[i as int],
                None => !self@.listings.contains_key((seller, gig_id)),
            },
    {
        let mut i: usize = 0;
        while i < self.listings.len()
            invariant
                self.tables_ok(),
                i <= self.listings@.len(),
                forall|j: int|
                    0 <= j < i ==> listing_key_fn()(#[trigger] self.listings@[j]) != (
                        seller,
                        gig_id,
                    ),
            decreases self.listings@.len() - i,
        {
            let row = &self.listings[i];
            if row.seller == seller && row.order.gig_id == gig_id {
                proof {
                    lemma_view_index(self.listings@, listing_key_fn(), i as int);
                }
                return Some(i);
            }
            i += 1;
        }
        proof {
            lemma_view_absent(self.listings@, listing_key_fn(), (seller, gig_id));
        }
        None
    }

    /// Index of the escrow record at `(buyer, seller, gig_id)`.
    fn find_escrow(&self, buyer: u64, seller: u64, gig_id: u64) -> (r: Option<usize>)
        requires
            self.tables_ok(),
        ensures
            match r {
                Some(i) => i < self.escrows@.len() && escrow_key(self.escrows@[i as int]) == (
                    buyer,
                    seller,
                    gig_id,
                ) && self@.escrows.contains_key((buyer, seller, gig_id)) && self@.escrows[(
                    buyer,
                    seller,
                    gig_id,
                )] == self.escrows@[i as int],
                None => !self@.escrows.contains_key((buyer, seller, gig_id)),
            },
    {
        let mut i: usize = 0;
        while i < self.escrows.len()
            invariant
                self.tables_ok(),
                i <= self.escrows@.len(),
                forall|j: int|
                    0 <= j < i ==> escrow_key_fn()(#[trigger] self.escrows@[j]) != (
                        buyer,
                        seller,
                        gig_id,
                    ),
            decreases self.escrows@.len() - i,
        {
            let row = &self.escrows[i];
            if row.buyer == buyer && row.seller == seller && row.gig_id == gig_id {
                proof {
                    lemma_view_index(self.escrows@, escrow_key_fn(), i as int);
                }
                return Some(i);
            }
            i += 1;
        }
        proof {
            lemma_view_absent(self.escrows@, escrow_key_fn(), (buyer, seller, gig_id));
        }
        None
    }

    /// Replaces the listing row at index `i` by one with the same key.
    fn replace_listing(&mut self, i: usize, row: Listing)
        requires
            old(self).tables_ok(),
            i < old(self).listings@.len(),
            listing_key(row) == listing_key(old(self).listings@[i as int]),
        ensures
            final(self).tables_ok(),
            final(self).escrows@ == old(self).escrows@,
            final(self).listings@ == old(self).listings@.update(i as int, row),
            final(self)@ == (GigState {
                listings: old(self)@.listings.insert(listing_key(row), row),
                ..old(self)@
            }),
    {
        proof {
            lemma_update(self.listings@, listing_key_fn(), i as int, row);
        }
        self.listings.set(i, row);
    }

    /// Moves the listing at index `i` to status `st`.
    fn set_status(&mut self, i: usize, st: GigStatus)
        requires
            old(self).tables_ok(),
            i < old(self).listings@.len(),
        ensures
            final(self).tables_ok(),
            final(self).escrows@ == old(self).escrows@,
            final(self).listings@.len() == old(self).listings@.len(),
            final(self)@ == with_status(
                old(self)@,
                listing_key(old(self).listings@[i as int]),
                st,
            ),
    {
        proof {
            lemma_view_index(self.listings@, listing_key_fn(), i as int);
        }
        let mut row = self.listings[i];
        row.order.status = st;
        self.replace_listing(i, row);
    }

    /// Drops the escrow record at index `i`.
    fn drop_escrow(&mut self, i: usize)
        requires
            old(self).tables_ok(),
            i < old(self).escrows@.len(),
        ensures
            final(self).tables_ok(),
            final(self).listings@ == old(self).listings@,
            final(self)@ == without_escrow(old(self)@, escrow_key(old(self).escrows@[i as int])),
    {
        proof {
            lemma_remove(self.escrows@, escrow_key_fn(), i as int);
        }
        self.escrows.remove(i);
    }
    /// Stores `e`, replacing any escrow record with the same key.
    fn put_escrow(&mut self, e: Escrow)
        requires
            old(self).tables_ok(),
        ensures
            final(self).tables_ok(),
            final(self).listings@ == old(self).listings@,
            final(self)@ == (GigState {
                escrows: old(self)@.escrows.insert(escrow_key(e), e),
                ..old(self)@
            }),
    {
        match self.find_escrow(e.buyer, e.seller, e.gig_id) {
            Some(j) => {
                proof {
                    lemma_update(self.escrows@, escrow_key_fn(), j as int, e);
                }
                self.escrows.set(j, e);
            },
            None => {
                proof {
                    lemma_push(self.escrows@, escrow_key_fn(), e);
                }
                self.escrows.push(e);
            },
        }
    }

    /// Drops the escrow record at `(buyer, seller, gig_id)`, if there is one.
    fn settle_escrow(&mut self, buyer: u64, seller: u64, gig_id: u64)
        requires
            old(self).tables_ok(),
        ensures
            final(self).tables_ok(),
            final(self).listings@ == old(self).listings@,
            final(self)@ == without_escrow(old(self)@, (buyer, seller, gig_id)),
    {
        match self.find_escrow(buyer, seller, gig_id) {
            Some(j) => self.drop_escrow(j),
            None => {
                assert(self@.escrows.remove((buyer, seller, gig_id)) =~= self@.escrows);
            },
        }
    }

    /// SELLER: lists gig `gig_id` at `price`, to be delivered within
    /// `delivery_time` time units of an order.
    pub fn list(&mut self, caller: u64, gig_id: u64, delivery_time: u64, price: u128) -> (r: Result<
        (),
        GigError,
    >)
        requires
            old(self).wf(),
        ensures
            final(self).wf(),
            (final(self)@, r) == list_spec(old(self)@, caller, gig_id, delivery_time, price),
    {
        proof {
            lemma_step_keeps_escrow_consistent(self@, caller, 0, Operation::List { gig_id, delivery_time, price });
        }
        match self.find_listing(caller, gig_id) {
            Some(_) => Err(GigError::AlreadyListed),
            None => {
                let order = Order { gig_id, delivery_time, price, status: GigStatus::Open };
                let row = Listing { seller: caller, order, buyer: 0, accept_deadline: 0 };
                proof {
                    lemma_push(self.listings@, listing_key_fn(), row);
                }
                self.listings.push(row);
                Ok(())
            },
        }
    }

    /// SELLER: takes the open listing `gig_id` down.
    pub fn unlist(&mut self, caller: u64, gig_id: u64) -> (r: Result<(), GigError>)
        requires
            old(self).wf(),
        ensures
            final(self).wf(),
            (final(self)@, r) == unlist_spec(old(self)@, caller, gig_id),
    {
        proof {
            lemma_step_keeps_escrow_consistent(self@, caller, 0, Operation::Unlist { gig_id });
        }
        match self.find_listing(caller, gig_id) {
            None => Err(GigError::NoSuchListing),
            Some(i) => {
                if self.listings[i].order.status != GigStatus::Open {
                    return Err(GigError::ListingBusy);
                }
                proof {
                    lemma_remove(self.listings@, listing_key_fn(), i as int);
                }
                self.listings.remove(i);
                Ok(())
            },
        }
    }

    /// SELLER: delivers the ordered gig `gig_id` at time `now`.
    pub fn deliver(&mut self, caller: u64, now: u64, gig_id: u64) -> (r: Result<(), GigError>)
        requires
            old(self).wf(),
        ensures
            final(self).wf(),
            (final(self)@, r) == deliver_spec(old(self)@, caller, now, gig_id),
    {
        proof {
            lemma_step_keeps_escrow_consistent(self@, caller, now, Operation::Deliver { gig_id });
        }
        match self.find_listing(caller, gig_id) {
            None => Err(GigError::InvalidState),
            Some(i) => {
                let mut row = self.listings[i];
                match row.order.status {
                    GigStatus::InOrder => {
                        row.order.status = GigStatus::Delivered;
                        row.accept_deadline = add_deadline(now, TIME_TO_ACCEPT_DELIVERY);
                        self.replace_listing(i, row);
                        Ok(())
                    },
                    GigStatus::Delivered => Err(GigError::AlreadyDelivered),
                    _ => Err(GigError::InvalidState),
                }
            },
        }
    }

    /// SELLER: collects the price of gig `gig_id` at time `now`.
    pub fn claim(&mut self, caller: u64, now: u64, gig_id: u64) -> (r: Result<Payout, GigError>)
        requires
            old(self).wf(),
        ensures
            final(self).wf(),
            (final(self)@, r) == claim_spec(old(self)@, caller, now, gig_id),
    {
        proof {
            lemma_step_keeps_escrow_consistent(self@, caller, now, Operation::Claim { gig_id });
        }
        let i = match self.find_listing(caller, gig_id) {
            None => {
                return Err(GigError::NothingToClaim);
            },
            Some(i) => i,
        };
        let row = self.listings[i];
        match row.order.status {
            GigStatus::DeliveryAccepted => {},
            GigStatus::Delivered => {
                if now <= row.accept_deadline {
                    return Err(GigError::BuyerStillHasTime);
                }
            },
            _ => {
                return Err(GigError::NothingToClaim);
            },
        }
        self.set_status(i, GigStatus::Open);
        self.settle_escrow(row.buyer, caller, gig_id);
        Ok(Payout { to: caller, amount: row.order.price, kind: PayoutKind::PaymentSent })
    }

    /// BUYER: orders gig `gig_id` of `seller` at time `now`, depositing `payment`.
    pub fn order(&mut self, caller: u64, now: u64, payment: u128, gig_id: u64, seller: u64) -> (r:
        Result<(), GigError>)
        requires
            old(self).wf(),
        ensures
            final(self).wf(),
            (final(self)@, r) == order_spec(old(self)@, caller, now, payment, gig_id, seller),
    {
        proof {
            lemma_step_keeps_escrow_consistent(
                self@,
                caller,
                now,
                Operation::Order { payment, gig_id, seller },
            );
        }
        let i = match self.find_listing(seller, gig_id) {
            None => {
                return Err(GigError::GigNotAvailable);
            },
            Some(i) => i,
        };
        let mut row = self.listings[i];
        if row.order.status != GigStatus::Open {
            return Err(GigError::GigNotAvailable);
        }
        match required_payment_of(row.order.price) {
            None => {
                return Err(GigError::WrongPaymentAmount);
            },
            Some(req) => {
                if payment != req {
                    return Err(GigError::WrongPaymentAmount);
                }
            },
        }
        let deadline = add_deadline(now, row.order.delivery_time);
        row.order.status = GigStatus::InOrder;
        row.buyer = caller;
        self.replace_listing(i, row);
        self.put_escrow(Escrow { buyer: caller, seller, gig_id, payment, deadline });
        Ok(())
    }

    /// BUYER: takes back the whole deposit for gig `gig_id` of `seller` once
    /// its delivery deadline has passed undelivered.
    pub fn refund(&mut self, caller: u64, now: u64, gig_id: u64, seller: u64) -> (r: Result<
        Payout,
        GigError,
    >)
        requires
            old(self).wf(),
        ensures
            final(self).wf(),
            (final(self)@, r) == refund_spec(old(self)@, caller, now, gig_id, seller),
    {
        proof {
            lemma_step_keeps_escrow_consistent(self@, caller, now, Operation::Refund { gig_id, seller });
        }
        let i = match self.find_listing(seller, gig_id) {
            None => {
                return Err(GigError::RefundNotAllowed);
            },
            Some(i) => i,
        };
        if self.listings[i].order.status != GigStatus::InOrder {
            return Err(GigError::RefundNotAllowed);
        }
        let j = match self.find_escrow(caller, seller, gig_id) {
            None => {
                return Err(GigError::NotPayer);
            },
            Some(j) => j,
        };
        let e = self.escrows[j];
        if now <= e.deadline {
            return Err(GigError::SellerStillHasTime);
        }
        self.set_status(i, GigStatus::Open);
        self.drop_escrow(j);
        Ok(Payout { to: caller, amount: e.payment, kind: PayoutKind::Refund })
    }

    /// BUYER: cancels the order of gig `gig_id` of `seller`; the price comes
    /// back and the collateral is withheld.
    pub fn dispute(&mut self, caller: u64, gig_id: u64, seller: u64) -> (r: Result<
        Payout,
        GigError,
    >)
        requires
            old(self).wf(),
        ensures
            final(self).wf(),
            (final(self)@, r) == dispute_spec(old(self)@, caller, gig_id, seller),
    {
        proof {
            lemma_step_keeps_escrow_consistent(self@, caller, 0, Operation::Dispute { gig_id, seller });
        }
        let i = match self.find_listing(seller, gig_id) {
            None => {
                return Err(GigError::DisputeNotAllowed);
            },
            Some(i) => i,
        };
        let row = self.listings[i];
        if row.order.status != GigStatus::InOrder && row.order.status != GigStatus::Delivered {
            return Err(GigError::DisputeNotAllowed);
        }
        let j = match self.find_escrow(caller, seller, gig_id) {
            None => {
                return Err(GigError::NotPayer);
            },
            Some(j) => j,
        };
        self.set_status(i, GigStatus::Open);
        self.drop_escrow(j);
        Ok(Payout { to: caller, amount: row.order.price, kind: PayoutKind::DisputeRefund })
    }

    /// BUYER: accepts the delivery of gig `gig_id` of `seller` at time `now`;
    /// the collateral comes back and the price is left for the seller.
    pub fn accept(&mut self, caller: u64, now: u64, gig_id: u64, seller: u64) -> (r: Result<
        Payout,
        GigError,
    >)
        requires
            old(self).wf(),
        ensures
            final(self).wf(),
            (final(self)@, r) == accept_spec(old(self)@, caller, now, gig_id, seller),
    {
        proof {
            lemma_step_keeps_escrow_consistent(self@, caller, now, Operation::Accept { gig_id, seller });
        }
        let i = match self.find_listing(seller, gig_id) {
            None => {
                return Err(GigError::NothingToAccept);
            },
            Some(i) => i,
        };
        let row = self.listings[i];
        if row.order.status != GigStatus::Delivered {
            return Err(GigError::NothingToAccept);
        }
        if now > row.accept_deadline {
            return Err(GigError::AcceptanceWindowExpired);
        }
        let j = match self.find_escrow(caller, seller, gig_id) {
            None => {
                return Err(GigError::NotPayer);
            },
            Some(j) => j,
        };
        let e = self.escrows[j];
        match required_payment_of(row.order.price) {
            None => {
                return Err(GigError::NotPayer);
            },
            Some(req) => {
                if e.payment != req {
                    return Err(GigError::NotPayer);
                }
            },
        }
        proof {
            lemma_required_payment(row.order.price);
        }
        self.set_status(i, GigStatus::DeliveryAccepted);
        self.drop_escrow(j);
        Ok(Payout { to: caller, amount: e.payment - row.order.price, kind: PayoutKind::DepositRefund })
    }

    /// The owner recorded at initialisation.
    pub fn get_owner(&self) -> (r: u64)
        ensures
            r == self@.owner,
    {
        self.owner
    }

    /// The listing of `seller` with this `gig_id`, if there is one.
    pub fn get_listing(&self, seller: u64, gig_id: u64) -> (r: Option<Order>)
        requires
            self.wf(),
        ensures
            r == (if self@.listings.contains_key((seller, gig_id)) {
                Some(self@.listings[(seller, gig_id)].order)
            } else {
                None
            }),
    {
        match self.find_listing(seller, gig_id) {
            Some(i) => Some(self.listings[i].order),
            None => None,
        }
    }

    /// Whether `seller` has no listing with this `gig_id`.
    pub fn is_empty_listing(&self, seller: u64, gig_id: u64) -> (r: bool)
        requires
            self.wf(),
        ensures
            r == !self@.listings.contains_key((seller, gig_id)),
    {
        self.find_listing(seller, gig_id).is_none()
    }

    /// The end of the acceptance window of the latest delivery of this
    /// listing (`0` before any delivery), if the listing exists.
    pub fn get_deadline_to_accept_delivery(&self, seller: u64, gig_id: u64) -> (r: Option<u64>)
        requires
            self.wf(),
        ensures
            r == (if self@.listings.contains_key((seller, gig_id)) {
                Some(self@.listings[(seller, gig_id)].accept_deadline)
            } else {
                None
            }),
    {
        match self.find_listing(seller, gig_id) {
            Some(i) => Some(self.listings[i].accept_deadline),
            None => None,
        }
    }

    /// What `buyer` holds in escrow for this gig of `seller`, if anything.
    pub fn get_payment_for_gig(&self, buyer: u64, seller: u64, gig_id: u64) -> (r: Option<u128>)
        requires
            self.wf(),
        ensures
            r == (if self@.escrows.contains_key((buyer, seller, gig_id)) {
                Some(self@.escrows[(buyer, seller, gig_id)].payment)
            } else {
                None
            }),
    {
        match self.find_escrow(buyer, seller, gig_id) {
            Some(j) => Some(self.escrows[j].payment),
            None => None,
        }
    }

    /// Whether `buyer` has an escrow record for this gig of `seller`.
    pub fn has_paid_for_gig(&self, buyer: u64, seller: u64, gig_id: u64) -> (r: bool)
        requires
            self.wf(),
        ensures
            r == self@.escrows.contains_key((buyer, seller, gig_id)),
    {
        self.find_escrow(buyer, seller, gig_id).is_some()
    }

    /// The delivery deadline of `buyer`'s order of this gig of `seller`, if
    /// there is such an order.
    pub fn get_deadline_for_delivery(&self, buyer: u64, seller: u64, gig_id: u64) -> (r: Option<
        u64,
    >)
        requires
            self.wf(),
        ensures
            r == (if self@.escrows.contains_key((buyer, seller, gig_id)) {
                Some(self@.escrows[(buyer, seller, gig_id)].deadline)
            } else {
                None
            }),
    {
        match self.find_escrow(buyer, seller, gig_id) {
            Some(j) => Some(self.escrows[j].deadline),
            None => None,
        }
    }
}

} // verus!
