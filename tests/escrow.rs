use gig_escrow::{Gig, GigError, GigStatus, Payout, PayoutKind, TIME_TO_ACCEPT_DELIVERY};

const SELLER: u64 = 1;
const BUYER: u64 = 2;
const OTHER: u64 = 3;

fn status(g: &Gig, seller: u64, gig_id: u64) -> GigStatus {
    g.get_listing(seller, gig_id).unwrap().status
}

/// A market with gig 1 listed at 1000 and ordered at time 0 for 1200.
fn ordered() -> Gig {
    let mut g = Gig::init(0);
    assert_eq!(g.list(SELLER, 1, 100, 1000), Ok(()));
    assert_eq!(g.order(BUYER, 0, 1200, 1, SELLER), Ok(()));
    g
}

#[test]
fn scenario_list_and_order() {
    let g = ordered();
    assert_eq!(status(&g, SELLER, 1), GigStatus::InOrder);
    assert_eq!(g.get_deadline_for_delivery(BUYER, SELLER, 1), Some(100));
    assert_eq!(g.get_payment_for_gig(BUYER, SELLER, 1), Some(1200));
    assert!(g.has_paid_for_gig(BUYER, SELLER, 1));
}

#[test]
fn scenario_deliver_sets_accept_deadline() {
    let mut g = ordered();
    assert_eq!(g.deliver(SELLER, 50, 1), Ok(()));
    assert_eq!(status(&g, SELLER, 1), GigStatus::Delivered);
    assert_eq!(
        g.get_deadline_to_accept_delivery(SELLER, 1),
        Some(50 + TIME_TO_ACCEPT_DELIVERY)
    );
    assert_eq!(g.get_deadline_to_accept_delivery(SELLER, 1), Some(100));
}

#[test]
fn scenario_accept_then_claim() {
    let mut g = ordered();
    g.deliver(SELLER, 50, 1).unwrap();
    assert_eq!(g.accept(BUYER, 60, 1, SELLER), Ok(Payout { to: BUYER, amount: 200, kind: PayoutKind::DepositRefund }));
    assert_eq!(status(&g, SELLER, 1), GigStatus::DeliveryAccepted);
    assert!(!g.has_paid_for_gig(BUYER, SELLER, 1));
    assert_eq!(g.claim(SELLER, 61, 1), Ok(Payout { to: SELLER, amount: 1000, kind: PayoutKind::PaymentSent }));
    assert_eq!(status(&g, SELLER, 1), GigStatus::Open);
}

#[test]
fn scenario_refund_without_order() {
    let mut g = Gig::init(0);
    g.list(SELLER, 1, 100, 1000).unwrap();
    assert_eq!(g.refund(BUYER, 500, 1, SELLER), Err(GigError::RefundNotAllowed));
    assert_eq!(status(&g, SELLER, 1), GigStatus::Open);
}

#[test]
fn scenario_wrong_payment() {
    let mut g = Gig::init(0);
    g.list(SELLER, 1, 100, 1000).unwrap();
    assert_eq!(g.order(BUYER, 0, 1000, 1, SELLER), Err(GigError::WrongPaymentAmount));
    assert_eq!(status(&g, SELLER, 1), GigStatus::Open);
    assert!(!g.has_paid_for_gig(BUYER, SELLER, 1));
    assert_eq!(g.get_payment_for_gig(BUYER, SELLER, 1), None);
}

#[test]
fn scenario_refund_after_missed_delivery() {
    let mut g = ordered();
    assert_eq!(g.refund(BUYER, 101, 1, SELLER), Ok(Payout { to: BUYER, amount: 1200, kind: PayoutKind::Refund }));
    assert_eq!(status(&g, SELLER, 1), GigStatus::Open);
    assert_eq!(g.get_payment_for_gig(BUYER, SELLER, 1), None);
    assert_eq!(g.refund(BUYER, 102, 1, SELLER), Err(GigError::RefundNotAllowed));
}

#[test]
fn refund_deadline_boundary() {
    let mut g = ordered();
    assert_eq!(g.refund(BUYER, 100, 1, SELLER), Err(GigError::SellerStillHasTime));
    assert_eq!(status(&g, SELLER, 1), GigStatus::InOrder);
    assert_eq!(g.refund(BUYER, 101, 1, SELLER), Ok(Payout { to: BUYER, amount: 1200, kind: PayoutKind::Refund }));
}

#[test]
fn refund_by_someone_who_did_not_pay() {
    let mut g = ordered();
    assert_eq!(g.refund(OTHER, 500, 1, SELLER), Err(GigError::NotPayer));
    assert_eq!(status(&g, SELLER, 1), GigStatus::InOrder);
}

#[test]
fn claim_twice_fails_the_second_time() {
    let mut g = ordered();
    g.deliver(SELLER, 50, 1).unwrap();
    g.accept(BUYER, 60, 1, SELLER).unwrap();
    assert_eq!(g.claim(SELLER, 61, 1), Ok(Payout { to: SELLER, amount: 1000, kind: PayoutKind::PaymentSent }));
    assert_eq!(g.claim(SELLER, 62, 1), Err(GigError::NothingToClaim));
}

#[test]
fn accepted_order_pays_out_the_deposit() {
    let mut g = ordered();
    g.deliver(SELLER, 10, 1).unwrap();
    let to_buyer = g.accept(BUYER, 20, 1, SELLER).unwrap();
    let to_seller = g.claim(SELLER, 30, 1).unwrap();
    assert_eq!(to_buyer.to, BUYER);
    assert_eq!(to_seller.to, SELLER);
    assert_eq!(to_buyer.amount + to_seller.amount, 1200);
}

#[test]
fn claim_after_acceptance_window() {
    let mut g = ordered();
    g.deliver(SELLER, 50, 1).unwrap();
    assert_eq!(g.claim(SELLER, 100, 1), Err(GigError::BuyerStillHasTime));
    assert_eq!(g.claim(SELLER, 101, 1), Ok(Payout { to: SELLER, amount: 1000, kind: PayoutKind::PaymentSent }));
    assert_eq!(status(&g, SELLER, 1), GigStatus::Open);
}

#[test]
fn claim_without_order() {
    let mut g = Gig::init(0);
    assert_eq!(g.claim(SELLER, 0, 1), Err(GigError::NothingToClaim));
    g.list(SELLER, 1, 100, 1000).unwrap();
    assert_eq!(g.claim(SELLER, 0, 1), Err(GigError::NothingToClaim));
}

#[test]
fn accept_window_boundary() {
    let mut g = ordered();
    g.deliver(SELLER, 50, 1).unwrap();
    assert_eq!(g.accept(BUYER, 101, 1, SELLER), Err(GigError::AcceptanceWindowExpired));
    assert_eq!(g.accept(BUYER, 100, 1, SELLER), Ok(Payout { to: BUYER, amount: 200, kind: PayoutKind::DepositRefund }));
}

#[test]
fn accept_errors() {
    let mut g = ordered();
    assert_eq!(g.accept(BUYER, 10, 1, SELLER), Err(GigError::NothingToAccept));
    g.deliver(SELLER, 50, 1).unwrap();
    assert_eq!(g.accept(OTHER, 60, 1, SELLER), Err(GigError::NotPayer));
    assert_eq!(status(&g, SELLER, 1), GigStatus::Delivered);
}

#[test]
fn list_twice_and_per_seller_ids() {
    let mut g = Gig::init(0);
    assert_eq!(g.list(SELLER, 1, 100, 1000), Ok(()));
    assert_eq!(g.list(SELLER, 1, 5, 5), Err(GigError::AlreadyListed));
    assert_eq!(g.list(OTHER, 1, 5, 5), Ok(()));
    assert_eq!(g.get_listing(SELLER, 1).unwrap().price, 1000);
    assert_eq!(g.get_listing(OTHER, 1).unwrap().price, 5);
}

#[test]
fn unlist_paths() {
    let mut g = ordered();
    assert_eq!(g.unlist(SELLER, 7), Err(GigError::NoSuchListing));
    assert_eq!(g.unlist(SELLER, 1), Err(GigError::ListingBusy));
    g.refund(BUYER, 101, 1, SELLER).unwrap();
    assert_eq!(g.unlist(SELLER, 1), Ok(()));
    assert!(g.is_empty_listing(SELLER, 1));
    assert_eq!(g.get_listing(SELLER, 1), None);
    assert_eq!(g.list(SELLER, 1, 10, 10), Ok(()));
}

#[test]
fn deliver_errors() {
    let mut g = Gig::init(0);
    g.list(SELLER, 1, 100, 1000).unwrap();
    assert_eq!(g.deliver(SELLER, 0, 1), Err(GigError::InvalidState));
    g.order(BUYER, 0, 1200, 1, SELLER).unwrap();
    assert_eq!(g.deliver(SELLER, 5, 1), Ok(()));
    assert_eq!(g.deliver(SELLER, 6, 1), Err(GigError::AlreadyDelivered));
    g.accept(BUYER, 7, 1, SELLER).unwrap();
    assert_eq!(g.deliver(SELLER, 8, 1), Err(GigError::InvalidState));
}

#[test]
fn order_errors() {
    let mut g = ordered();
    assert_eq!(g.order(OTHER, 0, 1200, 9, SELLER), Err(GigError::GigNotAvailable));
    assert_eq!(g.order(OTHER, 0, 1200, 1, SELLER), Err(GigError::GigNotAvailable));
    assert_eq!(g.order(OTHER, 0, 1199, 1, SELLER), Err(GigError::GigNotAvailable));
    g.refund(BUYER, 101, 1, SELLER).unwrap();
    assert_eq!(g.order(OTHER, 0, 1199, 1, SELLER), Err(GigError::WrongPaymentAmount));
}

#[test]
fn dispute_pays_back_the_price_only() {
    let mut g = ordered();
    assert_eq!(g.dispute(OTHER, 1, SELLER), Err(GigError::NotPayer));
    assert_eq!(g.dispute(BUYER, 1, SELLER), Ok(Payout { to: BUYER, amount: 1000, kind: PayoutKind::DisputeRefund }));
    assert_eq!(status(&g, SELLER, 1), GigStatus::Open);
    assert!(!g.has_paid_for_gig(BUYER, SELLER, 1));
    assert_eq!(g.dispute(BUYER, 1, SELLER), Err(GigError::DisputeNotAllowed));
}

#[test]
fn dispute_after_delivery() {
    let mut g = ordered();
    g.deliver(SELLER, 50, 1).unwrap();
    assert_eq!(g.dispute(BUYER, 1, SELLER), Ok(Payout { to: BUYER, amount: 1000, kind: PayoutKind::DisputeRefund }));
    assert_eq!(g.claim(SELLER, 500, 1), Err(GigError::NothingToClaim));
}

#[test]
fn deposit_rounds_down() {
    let mut g = Gig::init(0);
    g.list(SELLER, 1, 10, 7).unwrap();
    assert_eq!(g.order(BUYER, 0, 9, 1, SELLER), Err(GigError::WrongPaymentAmount));
    assert_eq!(g.order(BUYER, 0, 8, 1, SELLER), Ok(()));
    g.deliver(SELLER, 1, 1).unwrap();
    assert_eq!(g.accept(BUYER, 2, 1, SELLER), Ok(Payout { to: BUYER, amount: 1, kind: PayoutKind::DepositRefund }));
    assert_eq!(g.claim(SELLER, 3, 1), Ok(Payout { to: SELLER, amount: 7, kind: PayoutKind::PaymentSent }));
}

#[test]
fn zero_price_gig() {
    let mut g = Gig::init(0);
    g.list(SELLER, 1, 10, 0).unwrap();
    assert_eq!(g.order(BUYER, 0, 0, 1, SELLER), Ok(()));
    assert_eq!(g.refund(BUYER, 11, 1, SELLER), Ok(Payout { to: BUYER, amount: 0, kind: PayoutKind::Refund }));
}

#[test]
fn largest_prices() {
    let mut g = Gig::init(0);
    g.list(SELLER, 1, 10, u128::MAX).unwrap();
    assert_eq!(g.order(BUYER, 0, u128::MAX, 1, SELLER), Err(GigError::WrongPaymentAmount));
    let price = u128::MAX / 6 * 5;
    let deposit = price + price / 5;
    g.list(SELLER, 2, 10, price).unwrap();
    assert_eq!(g.order(BUYER, 0, deposit, 2, SELLER), Ok(()));
    g.deliver(SELLER, 1, 2).unwrap();
    assert_eq!(g.accept(BUYER, 2, 2, SELLER), Ok(Payout { to: BUYER, amount: price / 5, kind: PayoutKind::DepositRefund }));
}

#[test]
fn deadlines_at_the_end_of_the_clock() {
    let mut g = Gig::init(0);
    g.list(SELLER, 1, u64::MAX, 10).unwrap();
    g.order(BUYER, 5, 12, 1, SELLER).unwrap();
    assert_eq!(g.get_deadline_for_delivery(BUYER, SELLER, 1), Some(u64::MAX));
    assert_eq!(g.refund(BUYER, u64::MAX, 1, SELLER), Err(GigError::SellerStillHasTime));
    g.deliver(SELLER, u64::MAX - 1, 1).unwrap();
    assert_eq!(g.get_deadline_to_accept_delivery(SELLER, 1), Some(u64::MAX));
    assert_eq!(g.claim(SELLER, u64::MAX, 1), Err(GigError::BuyerStillHasTime));
}

#[test]
fn owner_is_recorded() {
    let g = Gig::init(42);
    assert_eq!(g.get_owner(), 42);
}

#[test]
fn timeout_claim_settles_the_order() {
    let mut g = ordered();
    g.deliver(SELLER, 50, 1).unwrap();
    assert_eq!(
        g.claim(SELLER, 101, 1),
        Ok(Payout { to: SELLER, amount: 1000, kind: PayoutKind::PaymentSent })
    );
    assert!(!g.has_paid_for_gig(BUYER, SELLER, 1));
    assert_eq!(g.get_payment_for_gig(BUYER, SELLER, 1), None);
}

#[test]
fn settled_buyer_cannot_be_paid_twice() {
    let mut g = ordered();
    g.deliver(SELLER, 50, 1).unwrap();
    g.claim(SELLER, 101, 1).unwrap();
    assert_eq!(g.order(OTHER, 102, 1200, 1, SELLER), Ok(()));
    assert_eq!(g.refund(BUYER, 500, 1, SELLER), Err(GigError::NotPayer));
    assert_eq!(g.dispute(BUYER, 1, SELLER), Err(GigError::NotPayer));
    assert_eq!(status(&g, SELLER, 1), GigStatus::InOrder);
    assert_eq!(
        g.refund(OTHER, 500, 1, SELLER),
        Ok(Payout { to: OTHER, amount: 1200, kind: PayoutKind::Refund })
    );
}
