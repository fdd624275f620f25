//! Properties of the marketplace that hold across operations and states.
use vstd::prelude::*;

use crate::machine::{
    accept_spec, allowed_move, claim_spec, deliver_spec, dispute_spec, escrow_consistent, order_spec,
    refund_spec, status_of, step, GigState, Operation,
};
use crate::types::{GigError, GigStatus, Payout, PayoutKind};

verus! {

/// Whatever operation anyone makes, each listing's status either stays put or
/// moves along one edge of the order cycle (list, unlist, order, deliver,
/// refund, dispute, accept, claim); no other status can be reached.
pub proof fn lemma_status_moves_along_cycle(s: GigState, caller: u64, now: u64, op: Operation)
    ensures
        forall|k: (u64, u64)| #[trigger]
            allowed_move(status_of(s, k), status_of(step(s, caller, now, op).0, k)),
{
}

/// Every operation keeps escrow records tied to live orders: each record
/// belongs to the current buyer of a listing that is in order or delivered.
pub proof fn lemma_step_keeps_escrow_consistent(s: GigState, caller: u64, now: u64, op: Operation)
    requires
        escrow_consistent(s),
    ensures
        escrow_consistent(step(s, caller, now, op).0),
{
}

/// A rejected operation leaves the state exactly as it was.
pub proof fn lemma_rejection_changes_nothing(s: GigState, caller: u64, now: u64, op: Operation)
    ensures
        step(s, caller, now, op).1 is Err ==> step(s, caller, now, op).0 == s,
{
}

/// Once a claim has paid the seller, a second claim on the same listing, at
/// any time, fails with `NothingToClaim`.
pub proof fn lemma_claim_twice(s: GigState, seller: u64, gig_id: u64, now1: u64, now2: u64)
    requires
        claim_spec(s, seller, now1, gig_id).1 is Ok,
    ensures
        claim_spec(claim_spec(s, seller, now1, gig_id).0, seller, now2, gig_id).1 == Err::<
            Payout,
            GigError,
        >(GigError::NothingToClaim),
{
}

/// An order that ends in a refund pays the buyer back exactly the deposit,
/// and leaves no escrow record behind to be paid out again.
pub proof fn lemma_refund_returns_deposit(
    s0: GigState,
    buyer: u64,
    seller: u64,
    gig_id: u64,
    payment: u128,
    t_order: u64,
    t_refund: u64,
)
    requires
        order_spec(s0, buyer, t_order, payment, gig_id, seller).1 is Ok,
        refund_spec(
            order_spec(s0, buyer, t_order, payment, gig_id, seller).0,
            buyer,
            t_refund,
            gig_id,
            seller,
        ).1 is Ok,
    ensures
        ({
            let s1 = order_spec(s0, buyer, t_order, payment, gig_id, seller).0;
            let (s2, r) = refund_spec(s1, buyer, t_refund, gig_id, seller);
            &&& r == Ok::<Payout, GigError>(
                Payout { to: buyer, amount: payment, kind: PayoutKind::Refund },
            )
            &&& !s2.escrows.contains_key((buyer, seller, gig_id))
            &&& status_of(s2, (seller, gig_id)) == Some(GigStatus::Open)
        }),
{
}

/// An order that is delivered, accepted and then claimed pays out exactly the
/// deposit: the collateral to the buyer on acceptance and the price to the
/// seller on the claim, with no escrow record left behind.
pub proof fn lemma_accepted_order_pays_out_deposit(
    s0: GigState,
    buyer: u64,
    seller: u64,
    gig_id: u64,
    payment: u128,
    t_order: u64,
    t_deliver: u64,
    t_accept: u64,
    t_claim: u64,
)
    requires
        ({
            let s1 = order_spec(s0, buyer, t_order, payment, gig_id, seller).0;
            let s2 = deliver_spec(s1, seller, t_deliver, gig_id).0;
            let s3 = accept_spec(s2, buyer, t_accept, gig_id, seller).0;
            &&& order_spec(s0, buyer, t_order, payment, gig_id, seller).1 is Ok
            &&& deliver_spec(s1, seller, t_deliver, gig_id).1 is Ok
            &&& accept_spec(s2, buyer, t_accept, gig_id, seller).1 is Ok
            &&& claim_spec(s3, seller, t_claim, gig_id).1 is Ok
        }),
    ensures
        ({
            let s1 = order_spec(s0, buyer, t_order, payment, gig_id, seller).0;
            let s2 = deliver_spec(s1, seller, t_deliver, gig_id).0;
            let (s3, to_buyer) = accept_spec(s2, buyer, t_accept, gig_id, seller);
            let (s4, to_seller) = claim_spec(s3, seller, t_claim, gig_id);
            &&& to_buyer->Ok_0.to == buyer
            &&& to_seller->Ok_0.to == seller
            &&& to_buyer->Ok_0.amount + to_seller->Ok_0.amount == payment
            &&& to_seller->Ok_0.amount == s0.listings[(seller, gig_id)].order.price
            &&& !s4.escrows.contains_key((buyer, seller, gig_id))
            &&& status_of(s4, (seller, gig_id)) == Some(GigStatus::Open)
        }),
{
}

/// An order that is delivered and then claimed after the acceptance window
/// pays the seller exactly the price and settles the order: no escrow record
/// is left behind to be paid out again.
pub proof fn lemma_timeout_claim_settles_order(
    s0: GigState,
    buyer: u64,
    seller: u64,
    gig_id: u64,
    payment: u128,
    t_order: u64,
    t_deliver: u64,
    t_claim: u64,
)
    requires
        ({
            let s1 = order_spec(s0, buyer, t_order, payment, gig_id, seller).0;
            let s2 = deliver_spec(s1, seller, t_deliver, gig_id).0;
            &&& order_spec(s0, buyer, t_order, payment, gig_id, seller).1 is Ok
            &&& deliver_spec(s1, seller, t_deliver, gig_id).1 is Ok
            &&& claim_spec(s2, seller, t_claim, gig_id).1 is Ok
        }),
    ensures
        ({
            let s1 = order_spec(s0, buyer, t_order, payment, gig_id, seller).0;
            let s2 = deliver_spec(s1, seller, t_deliver, gig_id).0;
            let (s3, to_seller) = claim_spec(s2, seller, t_claim, gig_id);
            &&& to_seller == Ok::<Payout, GigError>(
                Payout {
                    to: seller,
                    amount: s0.listings[(seller, gig_id)].order.price,
                    kind: PayoutKind::PaymentSent,
                },
            )
            &&& !s3.escrows.contains_key((buyer, seller, gig_id))
            &&& status_of(s3, (seller, gig_id)) == Some(GigStatus::Open)
        }),
{
}

/// Once the seller has claimed a delivered order, its buyer can get nothing
/// more out of it, even after another buyer orders the same gig: a refund,
/// a dispute or an acceptance by the first buyer is refused.
pub proof fn lemma_settled_buyer_gets_nothing_more(
    s0: GigState,
    buyer: u64,
    buyer2: u64,
    seller: u64,
    gig_id: u64,
    payment: u128,
    payment2: u128,
    t_order: u64,
    t_deliver: u64,
    t_claim: u64,
    t_order2: u64,
    t: u64,
)
    requires
        buyer2 != buyer,
        ({
            let s1 = order_spec(s0, buyer, t_order, payment, gig_id, seller).0;
            let s2 = deliver_spec(s1, seller, t_deliver, gig_id).0;
            let s3 = claim_spec(s2, seller, t_claim, gig_id).0;
            &&& order_spec(s0, buyer, t_order, payment, gig_id, seller).1 is Ok
            &&& deliver_spec(s1, seller, t_deliver, gig_id).1 is Ok
            &&& claim_spec(s2, seller, t_claim, gig_id).1 is Ok
            &&& order_spec(s3, buyer2, t_order2, payment2, gig_id, seller).1 is Ok
        }),
    ensures
        ({
            let s1 = order_spec(s0, buyer, t_order, payment, gig_id, seller).0;
            let s2 = deliver_spec(s1, seller, t_deliver, gig_id).0;
            let s3 = claim_spec(s2, seller, t_claim, gig_id).0;
            let s4 = order_spec(s3, buyer2, t_order2, payment2, gig_id, seller).0;
            &&& refund_spec(s4, buyer, t, gig_id, seller) == (s4, Err::<Payout, GigError>(
                GigError::NotPayer,
            ))
            &&& dispute_spec(s4, buyer, gig_id, seller) == (s4, Err::<Payout, GigError>(
                GigError::NotPayer,
            ))
            &&& accept_spec(s4, buyer, t, gig_id, seller).1 is Err
        }),
{
}

/// A refund is refused at the very delivery deadline and granted one time
/// unit after it.
pub proof fn lemma_refund_deadline_boundary(s: GigState, buyer: u64, seller: u64, gig_id: u64)
    requires
        status_of(s, (seller, gig_id)) == Some(GigStatus::InOrder),
        s.escrows.contains_key((buyer, seller, gig_id)),
        s.escrows[(buyer, seller, gig_id)].deadline < u64::MAX,
    ensures
        ({
            let d = s.escrows[(buyer, seller, gig_id)].deadline;
            &&& refund_spec(s, buyer, d, gig_id, seller).1 == Err::<Payout, GigError>(
                GigError::SellerStillHasTime,
            )
            &&& refund_spec(s, buyer, (d + 1) as u64, gig_id, seller).1 is Ok
        }),
{
}

} // verus!
