//! A tri-party collateral vault: a custodian, a borrower and a lender jointly
//! control deposited tokens, which leave only with a quorum of approvals and
//! within token-unit or oracle-priced risk limits.

pub mod accounts;
pub mod approvals;
pub mod events;
pub mod governance;
pub mod laws;
pub mod oracle;
pub mod release;
pub mod risk;
pub mod state;
pub mod vault;
