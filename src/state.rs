use vstd::prelude::*;

verus! {

/// An opaque 32-byte account identity, held as four little-endian words.
#[derive(Clone, Copy, Debug, PartialEq, Eq, Structural)]
pub struct Pubkey {
    pub w0: u64,
    pub w1: u64,
    pub w2: u64,
    pub w3: u64,
}

impl Pubkey {
    pub open spec fn is_null_spec(self) -> bool {
        self.w0 == 0 && self.w1 == 0 && self.w2 == 0 && self.w3 == 0
    }

    pub fn new(w0: u64, w1: u64, w2: u64, w3: u64) -> (r: Pubkey)
        ensures
            r == (Pubkey { w0, w1, w2, w3 }),
    {
        Pubkey { w0, w1, w2, w3 }
    }

    /// The all-zero identity, which names no account.
    pub fn null() -> (r: Pubkey)
        ensures
            r.is_null_spec(),
    {
        Pubkey { w0: 0, w1: 0, w2: 0, w3: 0 }
    }

    pub fn is_null(&self) -> (r: bool)
        ensures
            r == self.is_null_spec(),
    {
        self.w0 == 0 && self.w1 == 0 && self.w2 == 0 && self.w3 == 0
    }
}

/// Every way an operation on the vault can be rejected.
#[derive(Clone, Copy, Debug, PartialEq, Eq, Structural)]
pub enum ErrorCode {
    InvalidRole,
    RoleNotDistinct,
    Unauthorized,
    NotEnoughApprovals,
    Paused,
    AmountExceedsLocked,
    MathOverflow,
    InvalidAmount,
    BumpNotFound,
    DailyCapExceeded,
    PendingReleaseFlow,
    PriceAccountInvalid,
    PriceStale,
    PriceNonPositive,
    UsdCapExceeded,
    LtvBreach,
    InvalidRiskParams,
    /// A vault already exists for the identity tuple.
    AlreadyInitialized,
    /// The token-mode cap on a single release was exceeded.
    SingleReleaseCapExceeded,
    /// The recipient of a release is the null identity.
    InvalidRecipient,
}

/// The broad class of a rejection.
#[derive(Clone, Copy, Debug, PartialEq, Eq, Structural)]
pub enum ErrorKind {
    Authorization,
    Validation,
    State,
    Limit,
    Oracle,
    Arithmetic,
}

impl ErrorCode {
    pub open spec fn kind_spec(self) -> ErrorKind {
        match self {
            ErrorCode::Unauthorized => ErrorKind::Authorization,
            ErrorCode::InvalidRole | ErrorCode::RoleNotDistinct | ErrorCode::InvalidAmount
            | ErrorCode::AmountExceedsLocked | ErrorCode::InvalidRiskParams
            | ErrorCode::InvalidRecipient => ErrorKind::Validation,
            ErrorCode::NotEnoughApprovals | ErrorCode::Paused | ErrorCode::PendingReleaseFlow
            | ErrorCode::AlreadyInitialized | ErrorCode::BumpNotFound => ErrorKind::State,
            ErrorCode::DailyCapExceeded | ErrorCode::UsdCapExceeded | ErrorCode::LtvBreach
            | ErrorCode::SingleReleaseCapExceeded => ErrorKind::Limit,
            ErrorCode::PriceAccountInvalid | ErrorCode::PriceStale
            | ErrorCode::PriceNonPositive => ErrorKind::Oracle,
            ErrorCode::MathOverflow => ErrorKind::Arithmetic,
        }
    }

    pub fn kind(&self) -> (r: ErrorKind)
        ensures
            r == self.kind_spec(),
    {
        match self {
            ErrorCode::Unauthorized => ErrorKind::Authorization,
            ErrorCode::InvalidRole | ErrorCode::RoleNotDistinct | ErrorCode::InvalidAmount
            | ErrorCode::AmountExceedsLocked | ErrorCode::InvalidRiskParams
            | ErrorCode::InvalidRecipient => ErrorKind::Validation,
            ErrorCode::NotEnoughApprovals | ErrorCode::Paused | ErrorCode::PendingReleaseFlow
            | ErrorCode::AlreadyInitialized | ErrorCode::BumpNotFound => ErrorKind::State,
            ErrorCode::DailyCapExceeded | ErrorCode::UsdCapExceeded | ErrorCode::LtvBreach
            | ErrorCode::SingleReleaseCapExceeded => ErrorKind::Limit,
            ErrorCode::PriceAccountInvalid | ErrorCode::PriceStale
            | ErrorCode::PriceNonPositive => ErrorKind::Oracle,
            ErrorCode::MathOverflow => ErrorKind::Arithmetic,
        }
    }
}

/// Oracle pricing and USD risk limits.
#[derive(Clone, Copy, Debug, PartialEq, Eq, Structural)]
pub struct PriceConfig {
    pub enabled: bool,
    pub sol_usdc_price_feed: Pubkey,
    /// Largest loan-to-value ratio, in basis points; below 10000.
    pub max_ltv_bps: u16,
    pub max_single_release_usd_1e6: u64,
    pub daily_cap_usd_1e6: u64,
    pub max_price_staleness_secs: i64,
}

/// The persisted record of one vault.
#[derive(Clone, Copy, Debug, PartialEq, Eq, Structural)]
pub struct VaultState {
    pub mint: Pubkey,
    pub mint_decimals: u8,
    pub vault_authority_bump: u8,
    pub custodian: Pubkey,
    pub borrower: Pubkey,
    pub lender: Pubkey,
    /// bit 0: custodian, bit 1: borrower, bit 2: lender.
    pub approvals_bitmap: u8,
    pub amount_locked: u64,
    pub is_frozen: bool,
    pub threshold: u8,
    pub last_cap_reset_ts: i64,
    pub released_today: u64,
    pub released_today_usd_1e6: u64,
    pub price_config: PriceConfig,
}

impl VaultState {
    /// The record's invariant, established by initialization and kept by
    /// every operation.
    pub open spec fn wf(self) -> bool {
        &&& self.custodian != self.borrower
        &&& self.custodian != self.lender
        &&& self.borrower != self.lender
        &&& self.approvals_bitmap < 8
        &&& 1 <= self.threshold <= 3
        &&& self.price_config.max_ltv_bps < 10000
    }

    /// Whether `k` is one of the three role identities.
    pub open spec fn is_role_spec(self, k: Pubkey) -> bool {
        k == self.custodian || k == self.borrower || k == self.lender
    }
}

/// Whether `k` is one of the three role identities of the vault.
pub fn is_role(state: &VaultState, k: Pubkey) -> (r: bool)
    ensures
        r == state.is_role_spec(k),
{
    k == state.custodian || k == state.borrower || k == state.lender
}

} // verus!
