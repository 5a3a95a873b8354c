use vstd::prelude::*;
use crate::state::Pubkey;

verus! {

/// Reported when a vault is created.
#[derive(Clone, Copy, Debug, PartialEq, Eq, Structural)]
pub struct VaultInitialized {
    pub mint: Pubkey,
    pub custodian: Pubkey,
    pub borrower: Pubkey,
    pub lender: Pubkey,
}

/// Reported when collateral is deposited.
#[derive(Clone, Copy, Debug, PartialEq, Eq, Structural)]
pub struct CollateralDeposited {
    pub amount: u64,
    pub new_total: u64,
}

/// Reported when a role's approval bit changes, and on every approval.
#[derive(Clone, Copy, Debug, PartialEq, Eq, Structural)]
pub struct ReleaseApproved {
    pub by_role: u8,
    pub approvals_bitmap: u8,
}

/// Reported when collateral leaves the vault.
#[derive(Clone, Copy, Debug, PartialEq, Eq, Structural)]
pub struct CollateralReleased {
    pub recipient: Pubkey,
    pub amount: u64,
    pub remaining: u64,
    pub approvals_after: u8,
}

/// Reported when the vault is paused.
#[derive(Clone, Copy, Debug, PartialEq, Eq, Structural)]
pub struct Paused {}

/// Reported when the vault is unpaused.
#[derive(Clone, Copy, Debug, PartialEq, Eq, Structural)]
pub struct Unpaused {}

/// Snapshot reported beside a pause or an unpause.
#[derive(Clone, Copy, Debug, PartialEq, Eq, Structural)]
pub struct StateSignal {
    pub paused: bool,
    pub approvals_bitmap: u8,
    pub amount_locked: u64,
}

/// The oracle inputs that a USD-mode release was priced with.
#[derive(Clone, Copy, Debug, PartialEq, Eq, Structural)]
pub struct PriceUsed {
    pub feed: Pubkey,
    pub price: i64,
    pub conf: u64,
    pub expo: i32,
    pub publish_time: i64,
}

} // verus!
