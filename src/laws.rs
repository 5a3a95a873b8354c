use vstd::prelude::*;
use crate::accounts::{DepositCollateral, InitializeVault};
use crate::approvals::{approval_count, bit_of};
use crate::governance::{
    approve_spec, custodian_spec, has_quorum, revoke_spec, role_key, rotate_spec, with_approvals,
};
use crate::oracle::PriceSample;
use crate::release::{limits_spec, release_spec};
use crate::risk::{
    conservative_price, denom_exp, pow10, rolled_spec, usd_1e6, window_elapsed, DAILY_CAP_TOKENS,
    MAX_SINGLE_RELEASE_TOKENS,
};
use crate::oracle::is_fresh;
use vstd::arithmetic::div_mod::lemma_div_is_ordered;
use vstd::arithmetic::mul::lemma_mul_inequality;
use crate::state::{ErrorCode, ErrorKind, Pubkey, VaultState};
use crate::vault::{deposit_spec, exists_vault, initial_state, initialize_error, keyed_by};

verus! {

/// One call that touches the approval set.
pub enum ApprovalCall {
    Approve { role: u8, signer: Pubkey },
    Revoke { role: u8, signer: Pubkey },
    Reset { signer: Pubkey },
}

/// The record after one call; a refused call leaves it as it was.
pub open spec fn step(s: VaultState, c: ApprovalCall) -> VaultState {
    let want = match c {
        ApprovalCall::Approve { role, signer } => approve_spec(s, signer, role),
        ApprovalCall::Revoke { role, signer } => revoke_spec(s, signer, role),
        ApprovalCall::Reset { signer } => custodian_spec(s, signer, with_approvals(s, 0)),
    };
    match want {
        Ok(t) => t,
        Err(_) => s,
    }
}

/// The record after the calls, in order.
pub open spec fn run(s: VaultState, calls: Seq<ApprovalCall>) -> VaultState
    decreases calls.len(),
{
    if calls.len() == 0 {
        s
    } else {
        step(run(s, calls.drop_last()), calls.last())
    }
}

/// What a call, accepted under the identities of `s`, decides for role
/// `i`: `Some(true)` sets its bit, `Some(false)` clears it, `None` leaves it.
pub open spec fn decision(s: VaultState, c: ApprovalCall, i: u8) -> Option<bool> {
    match c {
        ApprovalCall::Approve { role, signer } => if role == i && role <= 2 && signer == role_key(s, role) {
            Some(true)
        } else {
            None
        },
        ApprovalCall::Revoke { role, signer } => if role == i && role <= 2 && signer == role_key(s, role) {
            Some(false)
        } else {
            None
        },
        ApprovalCall::Reset { signer } => if signer == s.custodian {
            Some(false)
        } else {
            None
        },
    }
}

/// What the most recent deciding call for role `i` decided, if any did.
pub open spec fn last_decision(s: VaultState, calls: Seq<ApprovalCall>, i: u8) -> Option<bool>
    decreases calls.len(),
{
    if calls.len() == 0 {
        None
    } else {
        match decision(s, calls.last(), i) {
            Some(b) => Some(b),
            None => last_decision(s, calls.drop_last(), i),
        }
    }
}

proof fn lemma_bit_update(b: u8, r: u8, i: u8)
    requires
        b < 8,
        r < 3,
        i < 3,
    ensures
        b | (1u8 << r) < 8,
        b & !(1u8 << r) < 8,
        bit_of(b | (1u8 << r), i) == (i == r || bit_of(b, i)),
        bit_of(b & !(1u8 << r), i) == (i != r && bit_of(b, i)),
        !bit_of(0u8, i),
{
    assert(b | (1u8 << r) < 8 && b & !(1u8 << r) < 8) by (bit_vector)
        requires
            b < 8,
            r < 3,
    ;
    assert((((b | (1u8 << r)) >> i) & 1u8 == 1u8) == (i == r || (b >> i) & 1u8 == 1u8)) by (bit_vector)
        requires
            b < 8,
            r < 3,
            i < 3,
    ;
    assert((((b & !(1u8 << r)) >> i) & 1u8 == 1u8) == (i != r && (b >> i) & 1u8 == 1u8)) by (bit_vector)
        requires
            b < 8,
            r < 3,
            i < 3,
    ;
    assert(((0u8 >> i) & 1u8) != 1u8) by (bit_vector)
        requires
            i < 3,
    ;
}

/// After any sequence of approvals, revocations and resets, the bit of each
/// role is set exactly when the most recent call that decided it was an
/// approval; with no such call it keeps its first value. The identities and
/// the rest of the record do not change.
pub proof fn approvals_follow_last_call(s: VaultState, calls: Seq<ApprovalCall>, i: u8)
    requires
        s.wf(),
        i < 3,
    ensures
        run(s, calls).wf(),
        run(s, calls) == with_approvals(s, run(s, calls).approvals_bitmap),
        bit_of(run(s, calls).approvals_bitmap, i) == match last_decision(s, calls, i) {
            Some(b) => b,
            None => bit_of(s.approvals_bitmap, i),
        },
    decreases calls.len(),
{
    if calls.len() > 0 {
        let prev = run(s, calls.drop_last());
        approvals_follow_last_call(s, calls.drop_last(), i);
        let b = prev.approvals_bitmap;
        match calls.last() {
            ApprovalCall::Approve { role, signer } => {
                if role <= 2 {
                    lemma_bit_update(b, role, i);
                }
            },
            ApprovalCall::Revoke { role, signer } => {
                if role <= 2 {
                    lemma_bit_update(b, role, i);
                }
            },
            ApprovalCall::Reset { signer } => {
                lemma_bit_update(b, 0, i);
            },
        }
    }
}

/// A release succeeds exactly when the amount is positive, the vault is not
/// frozen, the quorum is met, the amount is locked, the recipient is real, the
/// active mode's limits pass and the vault's account is pinned; each failed
/// precondition gives its own error.
pub proof fn release_succeeds_iff(
    s: VaultState,
    recipient: Pubkey,
    vault_authority: Pubkey,
    vault_ata_owner: Pubkey,
    feed_key: Option<Pubkey>,
    sample: Option<PriceSample>,
    amount: u64,
    now: i64,
)
    requires
        s.wf(),
    ensures
        release_spec(s, recipient, vault_authority, vault_ata_owner, feed_key, sample, amount, now) is Ok
            <==> {
            &&& amount > 0
            &&& !s.is_frozen
            &&& has_quorum(s)
            &&& amount <= s.amount_locked
            &&& !recipient.is_null_spec()
            &&& limits_spec(rolled_spec(s, now), amount, now, feed_key, sample) is Ok
            &&& vault_ata_owner == vault_authority
        },
        amount > 0 && s.is_frozen ==> release_spec(
            s,
            recipient,
            vault_authority,
            vault_ata_owner,
            feed_key,
            sample,
            amount,
            now,
        ) == Err::<VaultState, ErrorCode>(ErrorCode::Paused),
        amount > 0 && !s.is_frozen && !has_quorum(s) ==> release_spec(
            s,
            recipient,
            vault_authority,
            vault_ata_owner,
            feed_key,
            sample,
            amount,
            now,
        ) == Err::<VaultState, ErrorCode>(ErrorCode::NotEnoughApprovals),
        amount > 0 && !s.is_frozen && has_quorum(s) && amount > s.amount_locked ==> release_spec(
            s,
            recipient,
            vault_authority,
            vault_ata_owner,
            feed_key,
            sample,
            amount,
            now,
        ) == Err::<VaultState, ErrorCode>(ErrorCode::AmountExceedsLocked),
{
}

/// In token mode a release succeeds exactly when its preconditions hold, the
/// amount is within the single-release cap and the window's total stays
/// within the daily cap; the window's total then grows by the amount.
pub proof fn token_release_succeeds_iff(
    s: VaultState,
    recipient: Pubkey,
    vault_authority: Pubkey,
    vault_ata_owner: Pubkey,
    feed_key: Option<Pubkey>,
    sample: Option<PriceSample>,
    amount: u64,
    now: i64,
)
    requires
        s.wf(),
        !s.price_config.enabled,
    ensures
        ({
            let today = rolled_spec(s, now).released_today;
            let r = release_spec(s, recipient, vault_authority, vault_ata_owner, feed_key, sample, amount, now);
            &&& r is Ok <==> {
                &&& amount > 0
                &&& !s.is_frozen
                &&& has_quorum(s)
                &&& amount <= s.amount_locked
                &&& !recipient.is_null_spec()
                &&& vault_ata_owner == vault_authority
                &&& amount <= MAX_SINGLE_RELEASE_TOKENS
                &&& today + amount <= DAILY_CAP_TOKENS
            }
            &&& r matches Ok(t) ==> t.released_today == today + amount && t.amount_locked == s.amount_locked
                - amount
        }),
{
}

/// In USD mode, with a fresh positive price from the configured feed and
/// values that fit the arithmetic, a release succeeds exactly when its
/// preconditions hold, its value is within the single-release cap, the
/// window's USD total stays within the daily cap, and what stays in the
/// vault is worth at least the retained share of the value held before; the
/// window's USD total then grows by the release's value.
pub proof fn usd_release_succeeds_iff(
    s: VaultState,
    recipient: Pubkey,
    vault_authority: Pubkey,
    vault_ata_owner: Pubkey,
    px: PriceSample,
    amount: u64,
    now: i64,
)
    requires
        s.wf(),
        s.price_config.enabled,
        s.price_config.max_price_staleness_secs >= 0,
        is_fresh(px.publish_time, now, s.price_config.max_price_staleness_secs as u64),
        conservative_price(px) > 0,
        denom_exp(s.mint_decimals, px) >= 0,
        pow10(denom_exp(s.mint_decimals, px) as nat) <= u128::MAX,
        s.amount_locked * conservative_price(px) * 1_000_000 <= u128::MAX,
        usd_1e6(
            s.amount_locked as nat,
            conservative_price(px) as nat,
            denom_exp(s.mint_decimals, px) as nat,
        ) * (10000 - s.price_config.max_ltv_bps) <= u128::MAX,
    ensures
        ({
            let p = conservative_price(px) as nat;
            let e = denom_exp(s.mint_decimals, px) as nat;
            let rel = usd_1e6(amount as nat, p, e);
            let tot = usd_1e6(s.amount_locked as nat, p, e);
            let today = rolled_spec(s, now).released_today_usd_1e6;
            let r = release_spec(
                s,
                recipient,
                vault_authority,
                vault_ata_owner,
                Some(s.price_config.sol_usdc_price_feed),
                Some(px),
                amount,
                now,
            );
            &&& r is Ok <==> {
                &&& amount > 0
                &&& !s.is_frozen
                &&& has_quorum(s)
                &&& amount <= s.amount_locked
                &&& !recipient.is_null_spec()
                &&& vault_ata_owner == vault_authority
                &&& rel <= s.price_config.max_single_release_usd_1e6
                &&& today + rel <= s.price_config.daily_cap_usd_1e6
                &&& tot - rel >= tot * (10000 - s.price_config.max_ltv_bps) / 10000
            }
            &&& r matches Ok(t) ==> t.released_today_usd_1e6 == today + rel && t.amount_locked
                == s.amount_locked - amount
        }),
{
    let p = conservative_price(px);
    let e = denom_exp(s.mint_decimals, px) as nat;
    if amount <= s.amount_locked {
        lemma_mul_inequality(amount as int, s.amount_locked as int, p);
        lemma_mul_inequality(amount * p, s.amount_locked * p, 1_000_000);
        crate::risk::lemma_pow10_positive(e);
        lemma_div_is_ordered(amount * p * 1_000_000, s.amount_locked * p * 1_000_000, pow10(e) as int);
    }
}

/// A successful release takes exactly `amount` out of the vault and clears
/// every approval, so the same approvals cannot release twice.
pub proof fn release_once(
    s: VaultState,
    recipient: Pubkey,
    vault_authority: Pubkey,
    vault_ata_owner: Pubkey,
    feed_key: Option<Pubkey>,
    sample: Option<PriceSample>,
    amount: u64,
    now: i64,
    later: i64,
)
    requires
        s.wf(),
        release_spec(s, recipient, vault_authority, vault_ata_owner, feed_key, sample, amount, now) is Ok,
    ensures
        ({
            let t = release_spec(s, recipient, vault_authority, vault_ata_owner, feed_key, sample, amount, now)->Ok_0;
            &&& t.amount_locked == s.amount_locked - amount
            &&& t.approvals_bitmap == 0
            &&& release_spec(t, recipient, vault_authority, vault_ata_owner, feed_key, sample, amount, later)
                == Err::<VaultState, ErrorCode>(ErrorCode::NotEnoughApprovals)
        }),
{
    let t = release_spec(s, recipient, vault_authority, vault_ata_owner, feed_key, sample, amount, now)->Ok_0;
    assert(forall|i: u8| i < 8 ==> (0u8 >> i) & 1u8 != 1u8) by (bit_vector);
    assert(!bit_of(0, 0) && !bit_of(0, 1) && !bit_of(0, 2) && !bit_of(0, 3));
    assert(!bit_of(0, 4) && !bit_of(0, 5) && !bit_of(0, 6) && !bit_of(0, 7));
    assert(approval_count(t.approvals_bitmap) == 0);
}

/// A deposit while any approval is outstanding is refused with a state
/// error, whatever the amount and whoever deposits.
pub proof fn deposit_blocked_by_approvals(s: VaultState, ctx: DepositCollateral, amount: u64)
    requires
        s.approvals_bitmap != 0,
    ensures
        deposit_spec(s, ctx, amount) is Err,
        deposit_spec(s, ctx, amount)->Err_0.kind_spec() == ErrorKind::State,
{
}

/// The daily counters are cleared exactly when a full day has passed since
/// the window opened. Within the day a release never lowers them, and the
/// window's start never moves back.
pub proof fn daily_window_resets_exactly(
    s: VaultState,
    recipient: Pubkey,
    vault_authority: Pubkey,
    vault_ata_owner: Pubkey,
    feed_key: Option<Pubkey>,
    sample: Option<PriceSample>,
    amount: u64,
    now: i64,
)
    requires
        s.wf(),
    ensures
        window_elapsed(s, now) ==> rolled_spec(s, now).released_today == 0
            && rolled_spec(s, now).released_today_usd_1e6 == 0 && rolled_spec(s, now).last_cap_reset_ts
            == now,
        !window_elapsed(s, now) ==> rolled_spec(s, now) == s,
        release_spec(s, recipient, vault_authority, vault_ata_owner, feed_key, sample, amount, now) matches Ok(
            t,
        ) ==> {
            &&& t.last_cap_reset_ts >= s.last_cap_reset_ts
            &&& !window_elapsed(s, now) ==> t.released_today >= s.released_today
                && t.released_today_usd_1e6 >= s.released_today_usd_1e6
                && t.last_cap_reset_ts == s.last_cap_reset_ts
        },
{
}

/// Rotating a role without the quorum is refused with a state error; with
/// it, a valid rotation installs the new identity and clears the approvals.
pub proof fn rotation_needs_quorum(s: VaultState, role: u8, new_key: Pubkey)
    requires
        s.wf(),
    ensures
        !has_quorum(s) ==> rotate_spec(s, role, new_key) == Err::<VaultState, ErrorCode>(
            ErrorCode::NotEnoughApprovals,
        ) && ErrorCode::NotEnoughApprovals.kind_spec() == ErrorKind::State,
        has_quorum(s) && role <= 2 && !(s.is_role_spec(new_key) && new_key != role_key(s, role)) ==> {
            &&& rotate_spec(s, role, new_key) is Ok
            &&& rotate_spec(s, role, new_key)->Ok_0.approvals_bitmap == 0
            &&& role_key(rotate_spec(s, role, new_key)->Ok_0, role) == new_key
            &&& rotate_spec(s, role, new_key)->Ok_0.wf()
        },
{
}

/// Once paused, the vault refuses deposits and releases, while approvals
/// are decided exactly as they were before the pause.
pub proof fn pause_blocks_flows_not_approvals(
    s: VaultState,
    dep: DepositCollateral,
    dep_amount: u64,
    recipient: Pubkey,
    vault_authority: Pubkey,
    vault_ata_owner: Pubkey,
    feed_key: Option<Pubkey>,
    sample: Option<PriceSample>,
    amount: u64,
    now: i64,
    signer: Pubkey,
    role: u8,
)
    requires
        s.wf(),
        custodian_spec(s, signer, VaultState { is_frozen: true, ..s }) is Ok,
    ensures
        ({
            let p = custodian_spec(s, signer, VaultState { is_frozen: true, ..s })->Ok_0;
            &&& deposit_spec(p, dep, dep_amount) == Err::<VaultState, ErrorCode>(ErrorCode::Paused)
            &&& release_spec(p, recipient, vault_authority, vault_ata_owner, feed_key, sample, amount, now) is Err
            &&& amount > 0 ==> release_spec(p, recipient, vault_authority, vault_ata_owner, feed_key, sample, amount, now)
                == Err::<VaultState, ErrorCode>(ErrorCode::Paused)
            &&& (approve_spec(p, signer, role) is Ok <==> approve_spec(s, signer, role) is Ok)
            &&& approve_spec(p, signer, role) matches Ok(q) ==> q.is_frozen
                && q.approvals_bitmap == approve_spec(s, signer, role)->Ok_0.approvals_bitmap
        }),
{
}

/// Initializing a vault whose identity tuple exists already is refused, and
/// after a successful initialization the tuple exists.
pub proof fn reinitialize_refused(
    vaults: Seq<VaultState>,
    ctx: InitializeVault,
    custodian: Pubkey,
    borrower: Pubkey,
    lender: Pubkey,
    mint: Pubkey,
    now: i64,
)
    ensures
        exists_vault(vaults, mint, custodian, borrower, lender) ==> initialize_error(
            vaults,
            ctx,
            custodian,
            borrower,
            lender,
            mint,
        ) == Some(ErrorCode::AlreadyInitialized),
        initialize_error(vaults, ctx, custodian, borrower, lender, mint) is None ==> initialize_error(
            vaults.push(initial_state(ctx, custodian, borrower, lender, mint, now)),
            ctx,
            custodian,
            borrower,
            lender,
            mint,
        ) == Some(ErrorCode::AlreadyInitialized),
{
    let v2 = vaults.push(initial_state(ctx, custodian, borrower, lender, mint, now));
    assert(keyed_by(v2[vaults.len() as int], mint, custodian, borrower, lender));
}

} // verus!
