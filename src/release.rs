use vstd::prelude::*;
use crate::accounts::ReleaseCollateral;
use crate::approvals::bitcount;
use crate::events::{CollateralReleased, PriceUsed};
use crate::governance::{applied, has_quorum};
use crate::oracle::{check_price, fetch_price_spec, load_price, pyth_price_of, PriceSample};
use crate::risk::{
    check_token_limits, check_usd_limits, roll_daily_window, rolled_spec, token_limits_spec,
    usd_limits_spec,
};
use crate::state::{ErrorCode, Pubkey, VaultState};

verus! {

/// What a successful release reports.
#[derive(Clone, Copy, Debug, PartialEq, Eq, Structural)]
pub struct ReleaseReceipt {
    pub released: CollateralReleased,
    /// The oracle inputs, when the release was priced in USD.
    pub price_used: Option<PriceUsed>,
}

/// The mode-dependent risk check on the record `r`, whose daily window has
/// already been checked: token caps when oracle pricing is off, otherwise a
/// validated price reading and the USD caps with the loan-to-value guard.
pub open spec fn limits_spec(
    r: VaultState,
    amount: u64,
    now: i64,
    feed_key: Option<Pubkey>,
    sample: Option<PriceSample>,
) -> Result<VaultState, ErrorCode> {
    if !r.price_config.enabled {
        match token_limits_spec(r.released_today, amount) {
            Ok(t) => Ok(VaultState { released_today: t, ..r }),
            Err(e) => Err(e),
        }
    } else {
        match fetch_price_spec(r.price_config, feed_key, sample, now) {
            Err(e) => Err(e),
            Ok(px) => match usd_limits_spec(r, amount, px) {
                Ok(u) => Ok(VaultState { released_today_usd_1e6: u, ..r }),
                Err(e) => Err(e),
            },
        }
    }
}

/// A release of `amount` to `recipient` at time `now`, with `sample` the
/// reading of the feed account `feed_key`. Every check comes before any
/// change; on success the tokens leave, every approval lapses and the daily
/// counter of the active mode grows.
pub open spec fn release_spec(
    s: VaultState,
    recipient: Pubkey,
    vault_authority: Pubkey,
    vault_ata_owner: Pubkey,
    feed_key: Option<Pubkey>,
    sample: Option<PriceSample>,
    amount: u64,
    now: i64,
) -> Result<VaultState, ErrorCode> {
    if amount == 0 {
        Err(ErrorCode::InvalidAmount)
    } else if s.is_frozen {
        Err(ErrorCode::Paused)
    } else if !has_quorum(s) {
        Err(ErrorCode::NotEnoughApprovals)
    } else if amount > s.amount_locked {
        Err(ErrorCode::AmountExceedsLocked)
    } else if recipient.is_null_spec() {
        Err(ErrorCode::InvalidRecipient)
    } else {
        match limits_spec(rolled_spec(s, now), amount, now, feed_key, sample) {
            Err(e) => Err(e),
            Ok(t) => if vault_ata_owner != vault_authority {
                Err(ErrorCode::Unauthorized)
            } else {
                Ok(VaultState { amount_locked: (s.amount_locked - amount) as u64, approvals_bitmap: 0, ..t })
            },
        }
    }
}

/// The report of a release that succeeded.
pub open spec fn receipt_ok(
    rc: ReleaseReceipt,
    old: VaultState,
    new: VaultState,
    recipient: Pubkey,
    feed_key: Option<Pubkey>,
    sample: Option<PriceSample>,
    amount: u64,
    now: i64,
) -> bool {
    &&& rc.released == (CollateralReleased {
        recipient,
        amount,
        remaining: new.amount_locked,
        approvals_after: 0,
    })
    &&& rc.price_used == if old.price_config.enabled {
        let px = fetch_price_spec(old.price_config, feed_key, sample, now)->Ok_0;
        Some(
            PriceUsed {
                feed: old.price_config.sol_usdc_price_feed,
                price: px.price,
                conf: px.conf,
                expo: px.expo,
                publish_time: px.publish_time,
            },
        )
    } else {
        None::<PriceUsed>
    }
}

/// Releases `amount` to `recipient`, given the reading `sample` of the feed
/// account `feed_key` (both `None` when no feed account was handed in). On
/// success the caller moves the tokens out of the vault's account, signed by
/// the vault's derived authority, in the same atomic operation.
pub fn release_collateral_with_price(
    state: &mut VaultState,
    recipient: Pubkey,
    vault_authority: Pubkey,
    vault_ata_owner: Pubkey,
    feed_key: Option<Pubkey>,
    sample: Option<PriceSample>,
    amount: u64,
    now: i64,
) -> (r: Result<ReleaseReceipt, ErrorCode>)
    requires
        old(state).wf(),
    ensures
        final(state).wf(),
        applied(
            r,
            *old(state),
            *final(state),
            release_spec(*old(state), recipient, vault_authority, vault_ata_owner, feed_key, sample, amount, now),
        ),
        r matches Ok(rc) ==> receipt_ok(rc, *old(state), *final(state), recipient, feed_key, sample, amount, now),
{
    if amount == 0 {
        return Err(ErrorCode::InvalidAmount);
    }
    if state.is_frozen {
        return Err(ErrorCode::Paused);
    }
    if (bitcount(state.approvals_bitmap) as u64) < state.threshold as u64 {
        return Err(ErrorCode::NotEnoughApprovals);
    }
    if amount > state.amount_locked {
        return Err(ErrorCode::AmountExceedsLocked);
    }
    if recipient.is_null() {
        return Err(ErrorCode::InvalidRecipient);
    }
    let mut next: VaultState = *state;
    roll_daily_window(&mut next, now);
    let mut price_used: Option<PriceUsed> = None;
    if !next.price_config.enabled {
        match check_token_limits(next.released_today, amount) {
            Ok(t) => {
                next.released_today = t;
            },
            Err(e) => {
                return Err(e);
            },
        }
    } else {
        let px = match check_price(&next.price_config, feed_key, sample, now) {
            Ok(px) => px,
            Err(e) => {
                return Err(e);
            },
        };
        match check_usd_limits(&next, amount, px) {
            Ok(u) => {
                next.released_today_usd_1e6 = u;
            },
            Err(e) => {
                return Err(e);
            },
        }
        price_used = Some(
            PriceUsed {
                feed: next.price_config.sol_usdc_price_feed,
                price: px.price,
                conf: px.conf,
                expo: px.expo,
                publish_time: px.publish_time,
            },
        );
    }
    if vault_ata_owner != vault_authority {
        return Err(ErrorCode::Unauthorized);
    }
    next.amount_locked = next.amount_locked - amount;
    next.approvals_bitmap = 0;
    *state = next;
    Ok(
        ReleaseReceipt {
            released: CollateralReleased {
                recipient,
                amount,
                remaining: next.amount_locked,
                approvals_after: 0,
            },
            price_used,
        },
    )
}

/// Releases `amount` to the recipient of `ctx`, reading the price from the
/// feed account of `ctx` when oracle pricing is on.
pub fn release_collateral(state: &mut VaultState, ctx: &ReleaseCollateral, amount: u64, now: i64) -> (r:
    Result<ReleaseReceipt, ErrorCode>)
    requires
        old(state).wf(),
    ensures
        final(state).wf(),
        applied(
            r,
            *old(state),
            *final(state),
            release_spec(
                *old(state),
                ctx.recipient,
                ctx.vault_authority,
                ctx.vault_ata_owner,
                match ctx.pyth_price_acc {
                    Some(a) => Some(a.key),
                    None => None,
                },
                match ctx.pyth_price_acc {
                    Some(a) => pyth_price_of(a.data@),
                    None => None,
                },
                amount,
                now,
            ),
        ),
        r matches Ok(rc) ==> receipt_ok(
            rc,
            *old(state),
            *final(state),
            ctx.recipient,
            match ctx.pyth_price_acc {
                Some(a) => Some(a.key),
                None => None,
            },
            match ctx.pyth_price_acc {
                Some(a) => pyth_price_of(a.data@),
                None => None,
            },
            amount,
            now,
        ),
{
    let (feed_key, sample) = match &ctx.pyth_price_acc {
        Some(a) => (Some(a.key), load_price(a.data.as_slice())),
        None => (None, None),
    };
    release_collateral_with_price(
        state,
        ctx.recipient,
        ctx.vault_authority,
        ctx.vault_ata_owner,
        feed_key,
        sample,
        amount,
        now,
    )
}

} // verus!
