use vstd::prelude::*;
use crate::accounts::{Admin, ApproveRelease, Pause, RotateRole};
use crate::approvals::{approval_count, bitcount, clear_bit, has_bit, set_bit};
use crate::events::{Paused, ReleaseApproved, StateSignal, Unpaused};
use crate::state::{ErrorCode, Pubkey, VaultState};

verus! {

/// The identity stored for a role index (0 custodian, 1 borrower, else lender).
pub open spec fn role_key(s: VaultState, role: u8) -> Pubkey {
    if role == 0 {
        s.custodian
    } else if role == 1 {
        s.borrower
    } else {
        s.lender
    }
}

/// Whether the approvals on record meet the threshold.
pub open spec fn has_quorum(s: VaultState) -> bool {
    approval_count(s.approvals_bitmap) >= s.threshold
}

/// The record with `approvals` as its approval set.
pub open spec fn with_approvals(s: VaultState, approvals: u8) -> VaultState {
    VaultState { approvals_bitmap: approvals, ..s }
}

/// Approving as `role`, signed by `signer`.
pub open spec fn approve_spec(s: VaultState, signer: Pubkey, role: u8) -> Result<VaultState, ErrorCode> {
    if role > 2 {
        Err(ErrorCode::InvalidRole)
    } else if signer != role_key(s, role) {
        Err(ErrorCode::Unauthorized)
    } else {
        Ok(with_approvals(s, s.approvals_bitmap | (1u8 << role)))
    }
}

/// Revoking the approval of `role`, signed by `signer`.
pub open spec fn revoke_spec(s: VaultState, signer: Pubkey, role: u8) -> Result<VaultState, ErrorCode> {
    if role > 2 {
        Err(ErrorCode::InvalidRole)
    } else if signer != role_key(s, role) {
        Err(ErrorCode::Unauthorized)
    } else {
        Ok(with_approvals(s, s.approvals_bitmap & !(1u8 << role)))
    }
}

/// A call that either moved `old` to the new record `new` and succeeded, or
/// failed and left the record as it was.
pub open spec fn applied<T>(r: Result<T, ErrorCode>, old: VaultState, new: VaultState, want: Result<
    VaultState,
    ErrorCode,
>) -> bool {
    match want {
        Ok(s) => r is Ok && new == s,
        Err(e) => r == Err::<T, ErrorCode>(e) && new == old,
    }
}

/// Records the approval of `role` (0 custodian, 1 borrower, 2 lender). Setting
/// a bit that is already set changes nothing, and is reported all the same.
pub fn approve_release(state: &mut VaultState, ctx: &ApproveRelease, role: u8) -> (r: Result<
    ReleaseApproved,
    ErrorCode,
>)
    requires
        old(state).wf(),
    ensures
        final(state).wf(),
        applied(r, *old(state), *final(state), approve_spec(*old(state), ctx.role_signer, role)),
        r matches Ok(ev) ==> ev == (ReleaseApproved {
            by_role: role,
            approvals_bitmap: final(state).approvals_bitmap,
        }),
{
    if role > 2 {
        return Err(ErrorCode::InvalidRole);
    }
    let expected = if role == 0 {
        state.custodian
    } else if role == 1 {
        state.borrower
    } else {
        state.lender
    };
    if ctx.role_signer != expected {
        return Err(ErrorCode::Unauthorized);
    }
    let mut bitmap: u8 = state.approvals_bitmap;
    if !has_bit(bitmap, role) {
        set_bit(&mut bitmap, role);
    } else {
        let b: u8 = bitmap;
        assert(b | (1u8 << role) == b) by (bit_vector)
            requires
                role < 3,
                (b >> role) & 1u8 == 1u8,
        ;
    }
    state.approvals_bitmap = bitmap;
    Ok(ReleaseApproved { by_role: role, approvals_bitmap: bitmap })
}

/// Withdraws the approval of `role`. Clearing a bit that is already clear
/// changes nothing and reports nothing (`Ok(None)`).
pub fn revoke_approval(state: &mut VaultState, ctx: &ApproveRelease, role: u8) -> (r: Result<
    Option<ReleaseApproved>,
    ErrorCode,
>)
    requires
        old(state).wf(),
    ensures
        final(state).wf(),
        applied(r, *old(state), *final(state), revoke_spec(*old(state), ctx.role_signer, role)),
        r matches Ok(ev) ==> ev == (if (old(state).approvals_bitmap >> role) & 1u8 == 1u8 {
            Some(ReleaseApproved { by_role: role, approvals_bitmap: final(state).approvals_bitmap })
        } else {
            None
        }),
{
    if role > 2 {
        return Err(ErrorCode::InvalidRole);
    }
    let expected = if role == 0 {
        state.custodian
    } else if role == 1 {
        state.borrower
    } else {
        state.lender
    };
    if ctx.role_signer != expected {
        return Err(ErrorCode::Unauthorized);
    }
    let mut bitmap: u8 = state.approvals_bitmap;
    if has_bit(bitmap, role) {
        clear_bit(&mut bitmap, role);
        state.approvals_bitmap = bitmap;
        Ok(Some(ReleaseApproved { by_role: role, approvals_bitmap: bitmap }))
    } else {
        let b: u8 = bitmap;
        assert(b & !(1u8 << role) == b) by (bit_vector)
            requires
                role < 3,
                (b >> role) & 1u8 != 1u8,
        ;
        Ok(None)
    }
}

/// The custodian's administrative calls: rejected unless `signer` is it.
pub open spec fn custodian_spec(s: VaultState, signer: Pubkey, new: VaultState) -> Result<VaultState, ErrorCode> {
    if signer != s.custodian {
        Err(ErrorCode::Unauthorized)
    } else {
        Ok(new)
    }
}

/// Freezes the vault; custodian only.
pub fn pause(state: &mut VaultState, ctx: &Pause) -> (r: Result<(Paused, StateSignal), ErrorCode>)
    requires
        old(state).wf(),
    ensures
        final(state).wf(),
        applied(r, *old(state), *final(state), custodian_spec(
            *old(state),
            ctx.custodian,
            VaultState { is_frozen: true, ..*old(state) },
        )),
        r matches Ok(ev) ==> ev.1 == (StateSignal {
            paused: true,
            approvals_bitmap: final(state).approvals_bitmap,
            amount_locked: final(state).amount_locked,
        }),
{
    if ctx.custodian != state.custodian {
        return Err(ErrorCode::Unauthorized);
    }
    state.is_frozen = true;
    Ok(
        (
            Paused {  },
            StateSignal {
                paused: true,
                approvals_bitmap: state.approvals_bitmap,
                amount_locked: state.amount_locked,
            },
        ),
    )
}

/// Unfreezes the vault; custodian only.
pub fn unpause(state: &mut VaultState, ctx: &Pause) -> (r: Result<(Unpaused, StateSignal), ErrorCode>)
    requires
        old(state).wf(),
    ensures
        final(state).wf(),
        applied(r, *old(state), *final(state), custodian_spec(
            *old(state),
            ctx.custodian,
            VaultState { is_frozen: false, ..*old(state) },
        )),
        r matches Ok(ev) ==> ev.1 == (StateSignal {
            paused: false,
            approvals_bitmap: final(state).approvals_bitmap,
            amount_locked: final(state).amount_locked,
        }),
{
    if ctx.custodian != state.custodian {
        return Err(ErrorCode::Unauthorized);
    }
    state.is_frozen = false;
    Ok(
        (
            Unpaused {  },
            StateSignal {
                paused: false,
                approvals_bitmap: state.approvals_bitmap,
                amount_locked: state.amount_locked,
            },
        ),
    )
}

/// Clears every approval; custodian only.
pub fn reset_approvals(state: &mut VaultState, ctx: &Pause) -> (r: Result<(), ErrorCode>)
    requires
        old(state).wf(),
    ensures
        final(state).wf(),
        applied(r, *old(state), *final(state), custodian_spec(*old(state), ctx.custodian, with_approvals(*old(state), 0))),
{
    if ctx.custodian != state.custodian {
        return Err(ErrorCode::Unauthorized);
    }
    state.approvals_bitmap = 0;
    Ok(())
}

/// The record with the identity of `role` replaced by `k`.
pub open spec fn with_role_key(s: VaultState, role: u8, k: Pubkey) -> VaultState {
    if role == 0 {
        VaultState { custodian: k, ..s }
    } else if role == 1 {
        VaultState { borrower: k, ..s }
    } else {
        VaultState { lender: k, ..s }
    }
}

/// Rotating the identity of `role` to `new_key` under a quorum; the new
/// identity must stay distinct from the other two, and all approvals lapse.
pub open spec fn rotate_spec(s: VaultState, role: u8, new_key: Pubkey) -> Result<VaultState, ErrorCode> {
    if !has_quorum(s) {
        Err(ErrorCode::NotEnoughApprovals)
    } else if role > 2 {
        Err(ErrorCode::InvalidRole)
    } else if (role != 0 && new_key == s.custodian) || (role != 1 && new_key == s.borrower) || (role
        != 2 && new_key == s.lender) {
        Err(ErrorCode::RoleNotDistinct)
    } else {
        Ok(with_approvals(with_role_key(s, role, new_key), 0))
    }
}

/// Replaces the identity of a role; needs the quorum, and clears approvals.
pub fn rotate_role(state: &mut VaultState, ctx: &RotateRole, role: u8, new_key: Pubkey) -> (r: Result<
    (),
    ErrorCode,
>)
    requires
        old(state).wf(),
    ensures
        final(state).wf(),
        applied(r, *old(state), *final(state), rotate_spec(*old(state), role, new_key)),
{
    if (bitcount(state.approvals_bitmap) as u64) < state.threshold as u64 {
        return Err(ErrorCode::NotEnoughApprovals);
    }
    if role > 2 {
        return Err(ErrorCode::InvalidRole);
    }
    if (role != 0 && new_key == state.custodian) || (role != 1 && new_key == state.borrower) || (
    role != 2 && new_key == state.lender) {
        return Err(ErrorCode::RoleNotDistinct);
    }
    if role == 0 {
        state.custodian = new_key;
    } else if role == 1 {
        state.borrower = new_key;
    } else {
        state.lender = new_key;
    }
    state.approvals_bitmap = 0;
    Ok(())
}

/// Sets the price feed and switches oracle pricing on or off; custodian only.
pub fn set_price_feed(state: &mut VaultState, ctx: &Admin, feed: Pubkey, enabled: bool) -> (r: Result<
    (),
    ErrorCode,
>)
    requires
        old(state).wf(),
    ensures
        final(state).wf(),
        applied(r, *old(state), *final(state), custodian_spec(
            *old(state),
            ctx.custodian,
            VaultState {
                price_config: crate::state::PriceConfig {
                    sol_usdc_price_feed: feed,
                    enabled,
                    ..old(state).price_config
                },
                ..*old(state)
            },
        )),
{
    if ctx.custodian != state.custodian {
        return Err(ErrorCode::Unauthorized);
    }
    state.price_config.sol_usdc_price_feed = feed;
    state.price_config.enabled = enabled;
    Ok(())
}

/// Sets the USD caps, the staleness window and the largest loan-to-value
/// ratio, which must stay below 10000 basis points; custodian only.
pub fn set_risk_limits(
    state: &mut VaultState,
    ctx: &Admin,
    max_ltv_bps: u16,
    max_single_usd_1e6: u64,
    daily_cap_usd_1e6: u64,
    max_price_staleness_secs: i64,
) -> (r: Result<(), ErrorCode>)
    requires
        old(state).wf(),
    ensures
        final(state).wf(),
        applied(r, *old(state), *final(state), if ctx.custodian != old(state).custodian {
            Err(ErrorCode::Unauthorized)
        } else if max_ltv_bps > 9999 {
            Err(ErrorCode::InvalidRiskParams)
        } else {
            Ok(
                VaultState {
                    price_config: crate::state::PriceConfig {
                        max_ltv_bps,
                        max_single_release_usd_1e6: max_single_usd_1e6,
                        daily_cap_usd_1e6,
                        max_price_staleness_secs,
                        ..old(state).price_config
                    },
                    ..*old(state)
                },
            )
        }),
{
    if ctx.custodian != state.custodian {
        return Err(ErrorCode::Unauthorized);
    }
    if max_ltv_bps > 9_999 {
        return Err(ErrorCode::InvalidRiskParams);
    }
    state.price_config.max_ltv_bps = max_ltv_bps;
    state.price_config.max_single_release_usd_1e6 = max_single_usd_1e6;
    state.price_config.daily_cap_usd_1e6 = daily_cap_usd_1e6;
    state.price_config.max_price_staleness_secs = max_price_staleness_secs;
    Ok(())
}

} // verus!
