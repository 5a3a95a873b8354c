use vstd::prelude::*;
use crate::accounts::{CloseVault, DepositCollateral, InitializeVault};
use crate::events::{CollateralDeposited, VaultInitialized};
use crate::governance::applied;
use crate::state::{is_role, ErrorCode, PriceConfig, Pubkey, VaultState};

verus! {

/// The vaults that exist, each keyed by its mint and its three roles.
pub struct VaultRegistry {
    pub vaults: Vec<VaultState>,
}

/// Whether `s` is the vault of the identity tuple.
pub open spec fn keyed_by(s: VaultState, mint: Pubkey, custodian: Pubkey, borrower: Pubkey, lender: Pubkey) -> bool {
    s.mint == mint && s.custodian == custodian && s.borrower == borrower && s.lender == lender
}

/// Whether some vault of `vaults` has the identity tuple.
pub open spec fn exists_vault(
    vaults: Seq<VaultState>,
    mint: Pubkey,
    custodian: Pubkey,
    borrower: Pubkey,
    lender: Pubkey,
) -> bool {
    exists|i: int| 0 <= i < vaults.len() && #[trigger] keyed_by(vaults[i], mint, custodian, borrower, lender)
}

/// The record that initialization creates.
pub open spec fn initial_state(
    ctx: InitializeVault,
    custodian: Pubkey,
    borrower: Pubkey,
    lender: Pubkey,
    mint: Pubkey,
    now: i64,
) -> VaultState {
    VaultState {
        mint,
        mint_decimals: ctx.mint_decimals,
        vault_authority_bump: ctx.vault_authority_bump,
        custodian,
        borrower,
        lender,
        approvals_bitmap: 0,
        amount_locked: 0,
        is_frozen: false,
        threshold: 2,
        last_cap_reset_ts: now,
        released_today: 0,
        released_today_usd_1e6: 0,
        price_config: PriceConfig {
            enabled: false,
            sol_usdc_price_feed: Pubkey { w0: 0, w1: 0, w2: 0, w3: 0 },
            max_ltv_bps: 7000,
            max_single_release_usd_1e6: 1_000_000_000,
            daily_cap_usd_1e6: 5_000_000_000,
            max_price_staleness_secs: 90,
        },
    }
}

/// Why initialization is refused, if it is.
pub open spec fn initialize_error(
    vaults: Seq<VaultState>,
    ctx: InitializeVault,
    custodian: Pubkey,
    borrower: Pubkey,
    lender: Pubkey,
    mint: Pubkey,
) -> Option<ErrorCode> {
    if exists_vault(vaults, mint, custodian, borrower, lender) {
        Some(ErrorCode::AlreadyInitialized)
    } else if custodian == borrower || custodian == lender || borrower == lender {
        Some(ErrorCode::RoleNotDistinct)
    } else if ctx.mint_account != mint || ctx.vault_ata_owner != ctx.vault_authority {
        Some(ErrorCode::Unauthorized)
    } else {
        None
    }
}

impl VaultRegistry {
    pub fn new() -> (r: VaultRegistry)
        ensures
            r.vaults@ == Seq::<VaultState>::empty(),
    {
        VaultRegistry { vaults: Vec::new() }
    }

    /// Index of the vault of the identity tuple, if there is one.
    pub fn find(&self, mint: Pubkey, custodian: Pubkey, borrower: Pubkey, lender: Pubkey) -> (r: Option<usize>)
        ensures
            r is None <==> !exists_vault(self.vaults@, mint, custodian, borrower, lender),
            r matches Some(i) ==> i < self.vaults@.len() && keyed_by(self.vaults@[i as int], mint, custodian, borrower, lender),
    {
        let mut i: usize = 0;
        while i < self.vaults.len()
            invariant
                i <= self.vaults@.len(),
                forall|j: int| 0 <= j < i ==> !#[trigger] keyed_by(self.vaults@[j], mint, custodian, borrower, lender),
            decreases self.vaults@.len() - i,
        {
            let v = &self.vaults[i];
            if v.mint == mint && v.custodian == custodian && v.borrower == borrower && v.lender == lender {
                assert(keyed_by(self.vaults@[i as int], mint, custodian, borrower, lender));
                return Some(i);
            }
            i = i + 1;
        }
        None
    }
}

/// Creates the vault of the identity tuple, with a 2-of-3 threshold, oracle
/// pricing off and default USD limits. Refused if that vault exists already.
pub fn initialize_vault(
    registry: &mut VaultRegistry,
    ctx: &InitializeVault,
    custodian: Pubkey,
    borrower: Pubkey,
    lender: Pubkey,
    mint: Pubkey,
    now: i64,
) -> (r: Result<VaultInitialized, ErrorCode>)
    ensures
        match initialize_error(old(registry).vaults@, *ctx, custodian, borrower, lender, mint) {
            Some(e) => r == Err::<VaultInitialized, ErrorCode>(e) && final(registry).vaults@ == old(
                registry,
            ).vaults@,
            None => initial_state(*ctx, custodian, borrower, lender, mint, now).wf() && r == Ok::<VaultInitialized, ErrorCode>(
                VaultInitialized { mint, custodian, borrower, lender },
            ) && final(registry).vaults@ == old(registry).vaults@.push(
                initial_state(*ctx, custodian, borrower, lender, mint, now),
            ),
        },
{
    if registry.find(mint, custodian, borrower, lender).is_some() {
        return Err(ErrorCode::AlreadyInitialized);
    }
    if custodian == borrower || custodian == lender || borrower == lender {
        return Err(ErrorCode::RoleNotDistinct);
    }
    if ctx.mint_account != mint || ctx.vault_ata_owner != ctx.vault_authority {
        return Err(ErrorCode::Unauthorized);
    }
    let state = VaultState {
        mint,
        mint_decimals: ctx.mint_decimals,
        vault_authority_bump: ctx.vault_authority_bump,
        custodian,
        borrower,
        lender,
        approvals_bitmap: 0,
        amount_locked: 0,
        is_frozen: false,
        threshold: 2,
        last_cap_reset_ts: now,
        released_today: 0,
        released_today_usd_1e6: 0,
        price_config: PriceConfig {
            enabled: false,
            sol_usdc_price_feed: Pubkey::null(),
            max_ltv_bps: 7000,
            max_single_release_usd_1e6: 1_000_000_000,
            daily_cap_usd_1e6: 5_000_000_000,
            max_price_staleness_secs: 90,
        },
    };
    registry.vaults.push(state);
    Ok(VaultInitialized { mint, custodian, borrower, lender })
}

/// Removes the vault of the identity tuple and hands its last record back.
/// Whether it was drained is for the surrounding storage to enforce.
pub fn close_vault(registry: &mut VaultRegistry, ctx: &CloseVault) -> (r: Result<VaultState, ErrorCode>)
    ensures
        !exists_vault(old(registry).vaults@, ctx.mint, ctx.custodian, ctx.borrower, ctx.lender) ==> r
            == Err::<VaultState, ErrorCode>(ErrorCode::Unauthorized) && final(registry).vaults@ == old(
            registry,
        ).vaults@,
        exists_vault(old(registry).vaults@, ctx.mint, ctx.custodian, ctx.borrower, ctx.lender) ==> {
            &&& r matches Ok(s)
            &&& keyed_by(s, ctx.mint, ctx.custodian, ctx.borrower, ctx.lender)
            &&& final(registry).vaults@.len() + 1 == old(registry).vaults@.len()
            &&& exists|i: int|
                0 <= i < old(registry).vaults@.len() && old(registry).vaults@[i] == s
                    && final(registry).vaults@ == old(registry).vaults@.remove(i)
        },
{
    match registry.find(ctx.mint, ctx.custodian, ctx.borrower, ctx.lender) {
        Some(i) => {
            let s = registry.vaults.remove(i);
            Ok(s)
        },
        None => Err(ErrorCode::Unauthorized),
    }
}

/// Depositing `amount` into the vault, as `ctx` describes. Refused while
/// frozen or while any approval is outstanding, whatever the amount.
pub open spec fn deposit_spec(s: VaultState, ctx: DepositCollateral, amount: u64) -> Result<VaultState, ErrorCode> {
    if s.is_frozen {
        Err(ErrorCode::Paused)
    } else if s.approvals_bitmap != 0 {
        Err(ErrorCode::PendingReleaseFlow)
    } else if amount == 0 {
        Err(ErrorCode::InvalidAmount)
    } else if !s.is_role_spec(ctx.depositor) || ctx.vault_ata_owner != ctx.vault_authority {
        Err(ErrorCode::Unauthorized)
    } else if s.amount_locked + amount > u64::MAX {
        Err(ErrorCode::MathOverflow)
    } else {
        Ok(VaultState { amount_locked: (s.amount_locked + amount) as u64, ..s })
    }
}

/// Accounts for a deposit of `amount` by one of the three roles. On success
/// the caller moves the tokens into the vault's account in the same atomic
/// operation.
pub fn deposit_collateral(state: &mut VaultState, ctx: &DepositCollateral, amount: u64) -> (r: Result<
    CollateralDeposited,
    ErrorCode,
>)
    requires
        old(state).wf(),
    ensures
        final(state).wf(),
        applied(r, *old(state), *final(state), deposit_spec(*old(state), *ctx, amount)),
        r matches Ok(ev) ==> ev == (CollateralDeposited { amount, new_total: final(state).amount_locked }),
{
    if state.is_frozen {
        return Err(ErrorCode::Paused);
    }
    if state.approvals_bitmap != 0 {
        return Err(ErrorCode::PendingReleaseFlow);
    }
    if amount == 0 {
        return Err(ErrorCode::InvalidAmount);
    }
    if !is_role(state, ctx.depositor) || ctx.vault_ata_owner != ctx.vault_authority {
        return Err(ErrorCode::Unauthorized);
    }
    let new_total = match state.amount_locked.checked_add(amount) {
        Some(v) => v,
        None => {
            return Err(ErrorCode::MathOverflow);
        },
    };
    state.amount_locked = new_total;
    Ok(CollateralDeposited { amount, new_total })
}

} // verus!
