//! The values that the marketplace stores and hands back.
use vstd::prelude::*;

verus! {

/// Where a listing stands in its order cycle.
#[derive(Clone, Copy, Debug, PartialEq, Eq, Structural)]
pub enum GigStatus {
    Open,
    InOrder,
    Delivered,
    DeliveryAccepted,
}

/// A seller's listing of one gig: its terms and its status.
#[derive(Clone, Copy, Debug, PartialEq, Eq, Structural)]
pub struct Order {
    pub gig_id: u64,
    /// Time units that the seller has to deliver once the gig is ordered.
    pub delivery_time: u64,
    /// The price, exact.  A buyer deposits `price * 12 / 10` (rounded down),
    /// which must fit in a `u128`: a gig priced above `u128::MAX * 5 / 6`
    /// can be listed but never ordered.
    pub price: u128,
    pub status: GigStatus,
}

/// A row of the listing store, keyed by `(seller, order.gig_id)`.
#[derive(Clone, Copy, Debug, PartialEq, Eq, Structural)]
pub struct Listing {
    pub seller: u64,
    pub order: Order,
    /// The buyer of the latest order (`0` before the first one).  Settling
    /// the order clears this buyer's escrow record.
    pub buyer: u64,
    /// Last time at which the buyer may accept the latest delivery.
    pub accept_deadline: u64,
}

/// A row of the escrow store, keyed by `(buyer, seller, gig_id)`: what a buyer
/// deposited for an order and by when the seller has to deliver it.
#[derive(Clone, Copy, Debug, PartialEq, Eq, Structural)]
pub struct Escrow {
    pub buyer: u64,
    pub seller: u64,
    pub gig_id: u64,
    pub payment: u128,
    pub deadline: u64,
}

/// Why a payout is made, for the host's audit trail.
#[derive(Clone, Copy, Debug, PartialEq, Eq, Structural)]
pub enum PayoutKind {
    /// The price, paid to the seller by `claim`.
    PaymentSent,
    /// The whole deposit, paid back to the buyer by `refund`.
    Refund,
    /// The price, paid back to the buyer by `dispute`; the collateral is withheld.
    DisputeRefund,
    /// The collateral, paid back to the buyer by `accept`.
    DepositRefund,
}

/// An instruction to the host: transfer `amount` to `to`, tagged with `kind`.
#[derive(Clone, Copy, Debug, PartialEq, Eq, Structural)]
pub struct Payout {
    pub to: u64,
    pub amount: u128,
    pub kind: PayoutKind,
}

/// Why an operation was rejected.  A rejected operation changes nothing.
#[derive(Clone, Copy, Debug, PartialEq, Eq, Structural)]
pub enum GigError {
    AlreadyListed,
    NoSuchListing,
    ListingBusy,
    InvalidState,
    AlreadyDelivered,
    BuyerStillHasTime,
    SellerStillHasTime,
    NothingToClaim,
    GigNotAvailable,
    WrongPaymentAmount,
    RefundNotAllowed,
    DisputeNotAllowed,
    NotPayer,
    NothingToAccept,
    AcceptanceWindowExpired,
}

pub open spec fn listing_key(r: Listing) -> (u64, u64) {
    (r.seller, r.order.gig_id)
}

pub open spec fn escrow_key(e: Escrow) -> (u64, u64, u64) {
    (e.buyer, e.seller, e.gig_id)
}

/// The key function of the listing store, as one value for the table lemmas.
pub open spec fn listing_key_fn() -> spec_fn(Listing) -> (u64, u64) {
    |r: Listing| listing_key(r)
}

/// The key function of the escrow store, as one value for the table lemmas.
pub open spec fn escrow_key_fn() -> spec_fn(Escrow) -> (u64, u64, u64) {
    |e: Escrow| escrow_key(e)
}

} // verus!
