use vstd::prelude::*;
use crate::oracle::PriceSample;
use crate::state::{ErrorCode, VaultState};

verus! {

/// Token-mode cap on the units released in one daily window.
pub const DAILY_CAP_TOKENS: u64 = 1_000_000_000_000;

/// Token-mode cap on the units of a single release.
pub const MAX_SINGLE_RELEASE_TOKENS: u64 = 500_000_000_000;

/// Length of the daily accounting window, in seconds.
pub const DAY_SECS: i64 = 86_400;

/// Ten to the power `e`.
pub open spec fn pow10(e: nat) -> nat
    decreases e,
{
    if e == 0 { 1 } else { 10 * pow10((e - 1) as nat) }
}

proof fn lemma_pow10_grows(a: nat, b: nat)
    requires
        a <= b,
    ensures
        pow10(a) <= pow10(b),
        pow10(a) >= 1,
    decreases b,
{
    reveal_with_fuel(pow10, 2);
    if b > a {
        lemma_pow10_grows(a, (b - 1) as nat);
    } else if a > 0 {
        lemma_pow10_grows(0, (a - 1) as nat);
    }
}

/// A power of ten is positive.
pub proof fn lemma_pow10_positive(e: nat)
    ensures
        pow10(e) >= 1,
{
    lemma_pow10_grows(0, e);
}

/// `10^exp` as a `u128`; `None` for a negative exponent or one whose power
/// does not fit.
pub fn ten_pow_u128(exp: i32) -> (r: Option<u128>)
    ensures
        r == (if exp < 0 || pow10(exp as nat) > u128::MAX { None::<u128> } else { Some(
            pow10(exp as nat) as u128,
        ) }),
{
    if exp < 0 {
        return None;
    }
    let n: u32 = exp as u32;
    let mut v: u128 = 1;
    let mut i: u32 = 0;
    while i < n
        invariant
            i <= n,
            n == exp as nat,
            v == pow10(i as nat),
        decreases n - i,
    {
        match v.checked_mul(10) {
            Some(w) => {
                v = w;
            },
            None => {
                proof {
                    lemma_pow10_grows((i + 1) as nat, exp as nat);
                }
                return None;
            },
        }
        i = i + 1;
    }
    Some(v)
}

/// Whether a new daily window opens at time `now`.
pub open spec fn window_elapsed(s: VaultState, now: i64) -> bool {
    now - s.last_cap_reset_ts >= DAY_SECS
}

/// The record after the daily window check at time `now`.
pub open spec fn rolled_spec(s: VaultState, now: i64) -> VaultState {
    if window_elapsed(s, now) {
        VaultState { last_cap_reset_ts: now, released_today: 0, released_today_usd_1e6: 0, ..s }
    } else {
        s
    }
}

/// Opens a new daily window, clearing both daily counters, once a full day
/// has passed since the last one opened.
pub fn roll_daily_window(state: &mut VaultState, now: i64)
    ensures
        *final(state) == rolled_spec(*old(state), now),
{
    if now as i128 - state.last_cap_reset_ts as i128 >= DAY_SECS as i128 {
        state.last_cap_reset_ts = now;
        state.released_today = 0;
        state.released_today_usd_1e6 = 0;
    }
}

/// Token-mode limits: the new daily total, or the cap that was exceeded.
pub open spec fn token_limits_spec(released_today: u64, amount: u64) -> Result<u64, ErrorCode> {
    if released_today + amount > u64::MAX {
        Err(ErrorCode::MathOverflow)
    } else if amount > MAX_SINGLE_RELEASE_TOKENS {
        Err(ErrorCode::SingleReleaseCapExceeded)
    } else if released_today + amount > DAILY_CAP_TOKENS {
        Err(ErrorCode::DailyCapExceeded)
    } else {
        Ok((released_today + amount) as u64)
    }
}

/// Checks a release of `amount` units against the token-mode caps, given
/// the units already released in the current window.
pub fn check_token_limits(released_today: u64, amount: u64) -> (r: Result<u64, ErrorCode>)
    ensures
        r == token_limits_spec(released_today, amount),
{
    let new_today = match released_today.checked_add(amount) {
        Some(v) => v,
        None => {
            return Err(ErrorCode::MathOverflow);
        },
    };
    if amount > MAX_SINGLE_RELEASE_TOKENS {
        return Err(ErrorCode::SingleReleaseCapExceeded);
    }
    if new_today > DAILY_CAP_TOKENS {
        return Err(ErrorCode::DailyCapExceeded);
    }
    Ok(new_today)
}

/// Value in micro-USD of `q` base units at the integer price `p`, where
/// `10^denom_exp` is the product of the token's and the price's scales;
/// rounded down.
pub open spec fn usd_1e6(q: nat, p: nat, denom_exp: nat) -> nat {
    q * p * 1_000_000 / pow10(denom_exp)
}

/// Price minus confidence: the lowest value the oracle vouches for.
pub open spec fn conservative_price(px: PriceSample) -> int {
    px.price - px.conf
}

/// Decimal exponent of the divisor that turns units times price into dollars.
pub open spec fn denom_exp(decimals: u8, px: PriceSample) -> int {
    decimals - px.expo
}

/// USD-mode limits for a release of `amount` from the (already rolled)
/// record `s` at the price `px`: the new daily USD total, or why it is refused.
pub open spec fn usd_limits_spec(s: VaultState, amount: u64, px: PriceSample) -> Result<u64, ErrorCode> {
    let p = conservative_price(px);
    let e = denom_exp(s.mint_decimals, px);
    if p <= 0 {
        Err(ErrorCode::PriceNonPositive)
    } else if e < 0 || pow10(e as nat) > u128::MAX {
        Err(ErrorCode::MathOverflow)
    } else if amount * p * 1_000_000 > u128::MAX || s.amount_locked * p * 1_000_000 > u128::MAX {
        Err(ErrorCode::MathOverflow)
    } else {
        let rel = usd_1e6(amount as nat, p as nat, e as nat);
        let tot = usd_1e6(s.amount_locked as nat, p as nat, e as nat);
        let keep = (10000 - s.price_config.max_ltv_bps) as int;
        if rel > s.price_config.max_single_release_usd_1e6 {
            Err(ErrorCode::UsdCapExceeded)
        } else if s.released_today_usd_1e6 + rel > s.price_config.daily_cap_usd_1e6 {
            Err(ErrorCode::UsdCapExceeded)
        } else if tot < rel || tot * keep > u128::MAX {
            Err(ErrorCode::MathOverflow)
        } else if tot - rel < tot * keep / 10000 {
            Err(ErrorCode::LtvBreach)
        } else {
            Ok((s.released_today_usd_1e6 + rel) as u64)
        }
    }
}

/// Checks a release of `amount` against the USD caps and the loan-to-value
/// guard at the price `px`, valuing the vault before the release.
pub fn check_usd_limits(state: &VaultState, amount: u64, px: PriceSample) -> (r: Result<u64, ErrorCode>)
    requires
        state.wf(),
    ensures
        r == usd_limits_spec(*state, amount, px),
{
    let p_conservative: i128 = px.price as i128 - px.conf as i128;
    if p_conservative <= 0 {
        return Err(ErrorCode::PriceNonPositive);
    }
    let exp: i64 = state.mint_decimals as i64 - px.expo as i64;
    if exp > 38 {
        proof {
            reveal_with_fuel(pow10, 40);
            lemma_pow10_grows(39, exp as nat);
            assert(pow10(39) == 1_000_000_000_000_000_000_000_000_000_000_000_000_000nat);
        }
        return Err(ErrorCode::MathOverflow);
    }
    let denom = match ten_pow_u128(exp as i32) {
        Some(d) => d,
        None => {
            return Err(ErrorCode::MathOverflow);
        },
    };
    proof {
        lemma_pow10_grows(0, exp as nat);
    }
    let p_i: u128 = p_conservative as u128;
    let amount_i: u128 = amount as u128;
    let locked_i: u128 = state.amount_locked as u128;
    assert(amount_i * p_i <= u128::MAX) by (nonlinear_arith)
        requires
            amount_i <= u64::MAX,
            p_i <= u64::MAX,
    ;
    assert(locked_i * p_i <= u128::MAX) by (nonlinear_arith)
        requires
            locked_i <= u64::MAX,
            p_i <= u64::MAX,
    ;
    let release_num = match (amount_i * p_i).checked_mul(1_000_000u128) {
        Some(v) => v,
        None => {
            return Err(ErrorCode::MathOverflow);
        },
    };
    let total_num = match (locked_i * p_i).checked_mul(1_000_000u128) {
        Some(v) => v,
        None => {
            return Err(ErrorCode::MathOverflow);
        },
    };
    let release_usd: u128 = release_num / denom;
    let total_usd: u128 = total_num / denom;
    if release_usd > state.price_config.max_single_release_usd_1e6 as u128 {
        return Err(ErrorCode::UsdCapExceeded);
    }
    let new_today_usd: u128 = state.released_today_usd_1e6 as u128 + release_usd;
    if new_today_usd > state.price_config.daily_cap_usd_1e6 as u128 {
        return Err(ErrorCode::UsdCapExceeded);
    }
    let remaining_usd: u128 = match total_usd.checked_sub(release_usd) {
        Some(v) => v,
        None => {
            return Err(ErrorCode::MathOverflow);
        },
    };
    let keep: u128 = (10_000 - state.price_config.max_ltv_bps) as u128;
    let min_remaining = match total_usd.checked_mul(keep) {
        Some(v) => v / 10_000,
        None => {
            return Err(ErrorCode::MathOverflow);
        },
    };
    if remaining_usd < min_remaining {
        return Err(ErrorCode::LtvBreach);
    }
    Ok(new_today_usd as u64)
}

} // verus!
