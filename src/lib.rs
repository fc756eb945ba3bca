//! A two-party escrow engine: a buyer commits funds to an agreement, both
//! parties confirm its named conditions, and the funds are released to the
//! seller exactly once, when every condition carries both confirmations.
pub mod account;
pub mod agreement;
pub mod escrow;
pub mod laws;

pub use account::{AccountId, AgreementId, Balance};
pub use agreement::{Agreement, AgreementStatus, Condition};
pub use escrow::{CheckOutcome, Escrow, EscrowError, Release};
