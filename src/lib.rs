//! An escrow-mediated marketplace for time-boxed gigs.
//!
//! Sellers list gigs at a fixed price, buyers order them by depositing the
//! price plus a refundable collateral, and delivery, acceptance, disputes and
//! timeouts move the escrowed money to one party or the other.  The whole
//! marketplace is a deterministic state machine: every operation takes the
//! caller's identity and the current logical time as plain arguments, and a
//! payment that it makes is handed back to the host as a [`Payout`].

pub mod table;
pub mod gig;
pub mod laws;
pub mod machine;
pub mod types;

pub use gig::Gig;
pub use machine::{DENOMINATOR, TIME_TO_ACCEPT_DELIVERY, TOTAL_NUMERATOR};
pub use types::{GigError, GigStatus, Order, Payout, PayoutKind};
