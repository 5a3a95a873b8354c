use tri_party_vault::accounts::{
    Admin, ApproveRelease, CloseVault, DepositCollateral, InitializeVault, Pause, ReleaseCollateral,
    RotateRole,
};
use tri_party_vault::approvals::{bitcount, clear_bit, has_bit, set_bit};
use tri_party_vault::governance::{
    approve_release, pause, reset_approvals, revoke_approval, rotate_role, set_price_feed,
    set_risk_limits, unpause,
};
use tri_party_vault::oracle::{check_price, PriceAccount, PriceSample};
use tri_party_vault::release::{release_collateral, release_collateral_with_price};
use tri_party_vault::risk::{check_token_limits, check_usd_limits, roll_daily_window, ten_pow_u128};
use tri_party_vault::state::{is_role, ErrorCode, ErrorKind, Pubkey, VaultState};
use tri_party_vault::vault::{close_vault, deposit_collateral, initialize_vault, VaultRegistry};

const T0: i64 = 1_700_000_000;

fn key(n: u64) -> Pubkey {
    Pubkey::new(n, 0, 0, 0)
}

fn custodian() -> Pubkey {
    key(1)
}
fn borrower() -> Pubkey {
    key(2)
}
fn lender() -> Pubkey {
    key(3)
}
fn mint() -> Pubkey {
    key(10)
}
fn authority() -> Pubkey {
    key(20)
}
fn recipient() -> Pubkey {
    key(30)
}
fn feed() -> Pubkey {
    key(40)
}

fn init_ctx() -> InitializeVault {
    InitializeVault {
        mint_account: mint(),
        mint_decimals: 6,
        vault_authority: authority(),
        vault_authority_bump: 254,
        vault_ata_owner: authority(),
    }
}

fn new_vault() -> VaultState {
    let mut reg = VaultRegistry::new();
    initialize_vault(&mut reg, &init_ctx(), custodian(), borrower(), lender(), mint(), T0).unwrap();
    reg.vaults[0]
}

fn deposit(s: &mut VaultState, amount: u64) -> Result<(), ErrorCode> {
    let ctx = DepositCollateral { depositor: borrower(), vault_authority: authority(), vault_ata_owner: authority() };
    deposit_collateral(s, &ctx, amount).map(|_| ())
}

fn approve(s: &mut VaultState, role: u8) {
    let signer = [custodian(), borrower(), lender()][role as usize];
    approve_release(s, &ApproveRelease { role_signer: signer }, role).unwrap();
}

fn funded(amount: u64) -> VaultState {
    let mut s = new_vault();
    deposit(&mut s, amount).unwrap();
    approve(&mut s, 0);
    approve(&mut s, 1);
    s
}

fn release_tokens(s: &mut VaultState, amount: u64, now: i64) -> Result<(), ErrorCode> {
    release_collateral_with_price(s, recipient(), authority(), authority(), None, None, amount, now).map(|_| ())
}

fn usd_vault(locked: u64) -> VaultState {
    let mut s = funded(locked);
    set_price_feed(&mut s, &Admin { custodian: custodian() }, feed(), true).unwrap();
    s
}

fn dollar(publish_time: i64) -> PriceSample {
    PriceSample { price: 100_000_000, conf: 0, expo: -8, publish_time }
}

fn release_usd(s: &mut VaultState, amount: u64, px: PriceSample) -> Result<u64, ErrorCode> {
    release_collateral_with_price(s, recipient(), authority(), authority(), Some(feed()), Some(px), amount, T0)
        .map(|_| s.released_today_usd_1e6)
}

#[test]
fn initialize_sets_defaults() {
    let s = new_vault();
    assert_eq!(s.threshold, 2);
    assert_eq!(s.approvals_bitmap, 0);
    assert_eq!(s.amount_locked, 0);
    assert!(!s.is_frozen);
    assert!(!s.price_config.enabled);
    assert_eq!(s.price_config.max_ltv_bps, 7000);
    assert_eq!(s.price_config.max_single_release_usd_1e6, 1_000_000_000);
    assert_eq!(s.price_config.daily_cap_usd_1e6, 5_000_000_000);
    assert_eq!(s.price_config.max_price_staleness_secs, 90);
    assert_eq!(s.last_cap_reset_ts, T0);
    assert_eq!(s.mint_decimals, 6);
    assert_eq!(s.vault_authority_bump, 254);
}

#[test]
fn reinitialize_same_tuple_fails() {
    let mut reg = VaultRegistry::new();
    let ev = initialize_vault(&mut reg, &init_ctx(), custodian(), borrower(), lender(), mint(), T0).unwrap();
    assert_eq!(ev.custodian, custodian());
    let again = initialize_vault(&mut reg, &init_ctx(), custodian(), borrower(), lender(), mint(), T0 + 5);
    assert_eq!(again, Err(ErrorCode::AlreadyInitialized));
    assert_eq!(reg.vaults.len(), 1);
    // Another tuple is another vault.
    assert!(initialize_vault(&mut reg, &init_ctx(), custodian(), borrower(), key(4), mint(), T0).is_ok());
    assert_eq!(reg.vaults.len(), 2);
}

#[test]
fn initialize_rejects_shared_roles_and_foreign_mint() {
    let mut reg = VaultRegistry::new();
    let r = initialize_vault(&mut reg, &init_ctx(), custodian(), custodian(), lender(), mint(), T0);
    assert_eq!(r, Err(ErrorCode::RoleNotDistinct));
    let r = initialize_vault(&mut reg, &init_ctx(), custodian(), borrower(), borrower(), mint(), T0);
    assert_eq!(r, Err(ErrorCode::RoleNotDistinct));
    let r = initialize_vault(&mut reg, &init_ctx(), custodian(), borrower(), lender(), key(11), T0);
    assert_eq!(r, Err(ErrorCode::Unauthorized));
    assert!(reg.vaults.is_empty());
}

#[test]
fn close_removes_vault_and_allows_new_one() {
    let mut reg = VaultRegistry::new();
    initialize_vault(&mut reg, &init_ctx(), custodian(), borrower(), lender(), mint(), T0).unwrap();
    let ctx = CloseVault { mint: mint(), custodian: custodian(), borrower: borrower(), lender: lender() };
    let closed = close_vault(&mut reg, &ctx).unwrap();
    assert_eq!(closed.custodian, custodian());
    assert!(reg.vaults.is_empty());
    assert_eq!(close_vault(&mut reg, &ctx), Err(ErrorCode::Unauthorized));
    assert!(initialize_vault(&mut reg, &init_ctx(), custodian(), borrower(), lender(), mint(), T0).is_ok());
    assert_eq!(reg.find(mint(), custodian(), borrower(), lender()), Some(0));
    assert_eq!(reg.find(mint(), lender(), borrower(), custodian()), None);
}

#[test]
fn deposit_adds_to_locked_amount() {
    let mut s = new_vault();
    let ctx = DepositCollateral { depositor: lender(), vault_authority: authority(), vault_ata_owner: authority() };
    let ev = deposit_collateral(&mut s, &ctx, 250).unwrap();
    assert_eq!(ev.amount, 250);
    assert_eq!(ev.new_total, 250);
    deposit_collateral(&mut s, &ctx, 50).unwrap();
    assert_eq!(s.amount_locked, 300);
}

#[test]
fn deposit_while_approvals_pending_is_state_error() {
    let mut s = new_vault();
    deposit(&mut s, 10).unwrap();
    approve(&mut s, 2);
    let before = s;
    for amount in [0u64, 1, 5, u64::MAX] {
        for depositor in [custodian(), borrower(), lender(), key(99)] {
            let ctx = DepositCollateral { depositor, vault_authority: authority(), vault_ata_owner: authority() };
            let r = deposit_collateral(&mut s, &ctx, amount);
            assert_eq!(r, Err(ErrorCode::PendingReleaseFlow));
            assert_eq!(r.unwrap_err().kind(), ErrorKind::State);
        }
    }
    assert_eq!(s, before);
}

#[test]
fn deposit_rejections() {
    let mut s = new_vault();
    assert_eq!(deposit(&mut s, 0), Err(ErrorCode::InvalidAmount));
    let stranger = DepositCollateral { depositor: key(99), vault_authority: authority(), vault_ata_owner: authority() };
    assert_eq!(deposit_collateral(&mut s, &stranger, 5), Err(ErrorCode::Unauthorized));
    let unpinned = DepositCollateral { depositor: borrower(), vault_authority: authority(), vault_ata_owner: key(98) };
    assert_eq!(deposit_collateral(&mut s, &unpinned, 5), Err(ErrorCode::Unauthorized));
    deposit(&mut s, u64::MAX).unwrap();
    assert_eq!(deposit(&mut s, 1), Err(ErrorCode::MathOverflow));
    assert_eq!(ErrorCode::MathOverflow.kind(), ErrorKind::Arithmetic);
    assert_eq!(s.amount_locked, u64::MAX);
}

#[test]
fn approvals_follow_most_recent_call() {
    let mut s = new_vault();
    let c = ApproveRelease { role_signer: custodian() };
    let b = ApproveRelease { role_signer: borrower() };
    let l = ApproveRelease { role_signer: lender() };
    let ev = approve_release(&mut s, &c, 0).unwrap();
    assert_eq!((ev.by_role, ev.approvals_bitmap), (0, 0b001));
    // Approving again changes nothing but is still reported.
    let ev = approve_release(&mut s, &c, 0).unwrap();
    assert_eq!((ev.by_role, ev.approvals_bitmap), (0, 0b001));
    approve_release(&mut s, &b, 1).unwrap();
    assert_eq!(s.approvals_bitmap, 0b011);
    let ev = revoke_approval(&mut s, &b, 1).unwrap();
    assert_eq!(ev.map(|e| e.approvals_bitmap), Some(0b001));
    // Revoking a clear bit is silent.
    assert_eq!(revoke_approval(&mut s, &b, 1), Ok(None));
    approve_release(&mut s, &l, 2).unwrap();
    assert_eq!(s.approvals_bitmap, 0b101);
    reset_approvals(&mut s, &Pause { custodian: custodian() }).unwrap();
    assert_eq!(s.approvals_bitmap, 0);
    approve_release(&mut s, &b, 1).unwrap();
    assert_eq!(s.approvals_bitmap, 0b010);
}

#[test]
fn approval_rejections() {
    let mut s = new_vault();
    let b = ApproveRelease { role_signer: borrower() };
    assert_eq!(approve_release(&mut s, &b, 0), Err(ErrorCode::Unauthorized));
    assert_eq!(approve_release(&mut s, &b, 3), Err(ErrorCode::InvalidRole));
    assert_eq!(revoke_approval(&mut s, &b, 2), Err(ErrorCode::Unauthorized));
    assert_eq!(revoke_approval(&mut s, &b, 7), Err(ErrorCode::InvalidRole));
    assert_eq!(reset_approvals(&mut s, &Pause { custodian: borrower() }), Err(ErrorCode::Unauthorized));
    assert_eq!(s.approvals_bitmap, 0);
}

#[test]
fn release_moves_amount_and_clears_approvals_once() {
    let mut s = funded(1_000);
    let ctx = ReleaseCollateral {
        recipient: recipient(),
        vault_authority: authority(),
        vault_ata_owner: authority(),
        pyth_price_acc: None,
    };
    let rc = release_collateral(&mut s, &ctx, 400, T0 + 10).unwrap();
    assert_eq!(rc.released.amount, 400);
    assert_eq!(rc.released.remaining, 600);
    assert_eq!(rc.released.approvals_after, 0);
    assert_eq!(rc.released.recipient, recipient());
    assert_eq!(rc.price_used, None);
    assert_eq!(s.amount_locked, 600);
    assert_eq!(s.approvals_bitmap, 0);
    assert_eq!(s.released_today, 400);
    assert_eq!(release_collateral(&mut s, &ctx, 400, T0 + 20), Err(ErrorCode::NotEnoughApprovals));
    assert_eq!(s.amount_locked, 600);
}

#[test]
fn release_precondition_errors() {
    let mut s = new_vault();
    deposit(&mut s, 100).unwrap();
    approve(&mut s, 0);
    assert_eq!(release_tokens(&mut s, 10, T0), Err(ErrorCode::NotEnoughApprovals));
    approve(&mut s, 2);
    let before = s;
    assert_eq!(release_tokens(&mut s, 0, T0), Err(ErrorCode::InvalidAmount));
    assert_eq!(release_tokens(&mut s, 101, T0), Err(ErrorCode::AmountExceedsLocked));
    let r = release_collateral_with_price(&mut s, Pubkey::null(), authority(), authority(), None, None, 10, T0);
    assert_eq!(r, Err(ErrorCode::InvalidRecipient));
    assert_eq!(ErrorCode::InvalidRecipient.kind(), ErrorKind::Validation);
    let r = release_collateral_with_price(&mut s, recipient(), authority(), key(97), None, None, 10, T0);
    assert_eq!(r, Err(ErrorCode::Unauthorized));
    assert_eq!(s, before);
    assert!(release_tokens(&mut s, 100, T0).is_ok());
    assert_eq!(s.amount_locked, 0);
}

#[test]
fn token_mode_single_release_cap() {
    let mut s = funded(900_000_000_000);
    let before = s;
    let r = release_tokens(&mut s, 500_000_000_001, T0 + 1);
    assert_eq!(r, Err(ErrorCode::SingleReleaseCapExceeded));
    assert_eq!(r.unwrap_err().kind(), ErrorKind::Limit);
    assert_eq!(s, before);
    assert!(release_tokens(&mut s, 500_000_000_000, T0 + 1).is_ok());
}

#[test]
fn token_mode_daily_cap() {
    let mut s = funded(2_000_000_000_000);
    release_tokens(&mut s, 500_000_000_000, T0 + 1).unwrap();
    approve(&mut s, 0);
    approve(&mut s, 1);
    release_tokens(&mut s, 500_000_000_000, T0 + 2).unwrap();
    approve(&mut s, 0);
    approve(&mut s, 1);
    assert_eq!(release_tokens(&mut s, 1, T0 + 3), Err(ErrorCode::DailyCapExceeded));
    assert_eq!(s.released_today, 1_000_000_000_000);
    // A day after the window opened, the counter starts again.
    assert!(release_tokens(&mut s, 1, T0 + 86_400).is_ok());
    assert_eq!(s.released_today, 1);
    assert_eq!(s.last_cap_reset_ts, T0 + 86_400);
}

#[test]
fn token_limit_checks() {
    assert_eq!(check_token_limits(0, 500_000_000_001), Err(ErrorCode::SingleReleaseCapExceeded));
    assert_eq!(check_token_limits(999_999_999_999, 1), Ok(1_000_000_000_000));
    assert_eq!(check_token_limits(999_999_999_999, 2), Err(ErrorCode::DailyCapExceeded));
    assert_eq!(check_token_limits(u64::MAX, 1), Err(ErrorCode::MathOverflow));
}

#[test]
fn daily_window_resets_only_after_a_full_day() {
    let mut s = funded(1_000);
    s.released_today = 7;
    s.released_today_usd_1e6 = 9;
    roll_daily_window(&mut s, T0 + 86_399);
    assert_eq!((s.released_today, s.released_today_usd_1e6, s.last_cap_reset_ts), (7, 9, T0));
    roll_daily_window(&mut s, T0 + 86_400);
    assert_eq!((s.released_today, s.released_today_usd_1e6, s.last_cap_reset_ts), (0, 0, T0 + 86_400));
    // Several idle days reset the window once, at the time it is observed.
    roll_daily_window(&mut s, T0 + 10 * 86_400 + 5);
    assert_eq!(s.last_cap_reset_ts, T0 + 10 * 86_400 + 5);
    let mut s = funded(1_000);
    release_tokens(&mut s, 100, T0 + 50).unwrap();
    approve(&mut s, 0);
    approve(&mut s, 1);
    release_tokens(&mut s, 100, T0 + 86_399).unwrap();
    assert_eq!(s.released_today, 200);
}

#[test]
fn usd_mode_three_hundred_dollars() {
    let s = usd_vault(1_000_000_000);
    assert_eq!(check_usd_limits(&s, 300_000_000, dollar(T0)), Ok(300_000_000));
    let mut s = s;
    let rc = release_collateral_with_price(
        &mut s,
        recipient(),
        authority(),
        authority(),
        Some(feed()),
        Some(dollar(T0 - 30)),
        300_000_000,
        T0,
    )
    .unwrap();
    assert_eq!(s.released_today_usd_1e6, 300_000_000);
    assert_eq!(s.released_today, 0);
    assert_eq!(s.amount_locked, 700_000_000);
    let used = rc.price_used.unwrap();
    assert_eq!((used.feed, used.price, used.conf, used.expo, used.publish_time), (feed(), 100_000_000, 0, -8, T0 - 30));
}

#[test]
fn ltv_guard_uses_pre_release_valuation() {
    // Total $1000, 70% LTV: at least $300 must stay, measured against $1000.
    let s = usd_vault(1_000_000_000);
    assert_eq!(check_usd_limits(&s, 700_000_000, dollar(T0)), Ok(700_000_000));
    assert_eq!(check_usd_limits(&s, 700_000_001, dollar(T0)), Err(ErrorCode::LtvBreach));
    assert_eq!(check_usd_limits(&s, 800_000_000, dollar(T0)), Err(ErrorCode::LtvBreach));
    // Releasing $750 leaves $250, under 30% of the $1000 held before.
    assert_eq!(check_usd_limits(&s, 750_000_000, dollar(T0)), Err(ErrorCode::LtvBreach));
}

#[test]
fn usd_caps() {
    let mut s = usd_vault(100_000_000_000);
    // $1,000 per release at most.
    assert_eq!(check_usd_limits(&s, 1_000_000_001, dollar(T0)), Err(ErrorCode::UsdCapExceeded));
    assert_eq!(check_usd_limits(&s, 1_000_000_000, dollar(T0)), Ok(1_000_000_000));
    s.released_today_usd_1e6 = 4_500_000_000;
    assert_eq!(check_usd_limits(&s, 500_000_001, dollar(T0)), Err(ErrorCode::UsdCapExceeded));
    assert_eq!(check_usd_limits(&s, 500_000_000, dollar(T0)), Ok(5_000_000_000));
}

#[test]
fn usd_conservative_price_and_rounding() {
    let s = usd_vault(1_000_000_000);
    let shaky = PriceSample { price: 100_000_000, conf: 100_000_000, expo: -8, publish_time: T0 };
    assert_eq!(check_usd_limits(&s, 1, shaky), Err(ErrorCode::PriceNonPositive));
    let negative = PriceSample { price: -5, conf: 0, expo: -8, publish_time: T0 };
    assert_eq!(check_usd_limits(&s, 1, negative), Err(ErrorCode::PriceNonPositive));
    // $0.50 after confidence: 3 units of a millionth is 1.5 micro-dollars, rounded down.
    let half = PriceSample { price: 60_000_000, conf: 10_000_000, expo: -8, publish_time: T0 };
    assert_eq!(check_usd_limits(&s, 3, half), Ok(1));
    // A positive exponent beyond the decimals leaves no divisor.
    let big = PriceSample { price: 1, conf: 0, expo: 7, publish_time: T0 };
    assert_eq!(check_usd_limits(&s, 1, big), Err(ErrorCode::MathOverflow));
}

#[test]
fn usd_release_price_validation() {
    let mut s = usd_vault(1_000_000_000);
    let before = s;
    let r = release_collateral_with_price(&mut s, recipient(), authority(), authority(), Some(key(41)), Some(dollar(T0)), 1, T0);
    assert_eq!(r, Err(ErrorCode::Unauthorized));
    // A missing feed account is an oracle error, not a silent skip.
    let r = release_collateral_with_price(&mut s, recipient(), authority(), authority(), None, None, 1, T0);
    assert_eq!(r, Err(ErrorCode::PriceAccountInvalid));
    let r = release_collateral_with_price(&mut s, recipient(), authority(), authority(), Some(feed()), None, 1, T0);
    assert_eq!(r, Err(ErrorCode::PriceAccountInvalid));
    assert_eq!(release_usd(&mut s, 1, dollar(T0 - 91)), Err(ErrorCode::PriceStale));
    assert_eq!(release_usd(&mut s, 1, dollar(T0 + 91)), Err(ErrorCode::PriceStale));
    assert_eq!(release_usd(&mut s, 1, dollar(i64::MIN)), Err(ErrorCode::PriceStale));
    assert_eq!(ErrorCode::PriceStale.kind(), ErrorKind::Oracle);
    assert_eq!(s, before);
    assert_eq!(release_usd(&mut s, 1_000_000, dollar(T0 - 90)), Ok(1_000_000));
}

#[test]
fn check_price_rules() {
    let s = usd_vault(1);
    let cfg = s.price_config;
    assert_eq!(check_price(&cfg, Some(feed()), Some(dollar(T0 - 90)), T0), Ok(dollar(T0 - 90)));
    assert_eq!(check_price(&cfg, Some(feed()), Some(dollar(T0 - 91)), T0), Err(ErrorCode::PriceStale));
    let mut open = cfg;
    open.sol_usdc_price_feed = Pubkey::null();
    assert_eq!(check_price(&open, None, None, T0), Err(ErrorCode::PriceAccountInvalid));
    let mut negative = cfg;
    negative.max_price_staleness_secs = -1;
    assert_eq!(check_price(&negative, Some(feed()), Some(dollar(T0)), T0), Err(ErrorCode::InvalidRiskParams));
}

#[test]
fn release_rejects_unparsable_feed_account() {
    let mut s = usd_vault(1_000_000_000);
    let ctx = ReleaseCollateral {
        recipient: recipient(),
        vault_authority: authority(),
        vault_ata_owner: authority(),
        pyth_price_acc: Some(PriceAccount { key: feed(), data: vec![0u8; 64] }),
    };
    assert_eq!(release_collateral(&mut s, &ctx, 1, T0), Err(ErrorCode::PriceAccountInvalid));
    let ctx = ReleaseCollateral {
        recipient: recipient(),
        vault_authority: authority(),
        vault_ata_owner: authority(),
        pyth_price_acc: Some(PriceAccount { key: feed(), data: vec![0u8; 4096] }),
    };
    assert_eq!(release_collateral(&mut s, &ctx, 1, T0), Err(ErrorCode::PriceAccountInvalid));
    assert_eq!(s.amount_locked, 1_000_000_000);
}

#[test]
fn rotate_role_needs_quorum() {
    let mut s = new_vault();
    approve(&mut s, 1);
    let r = rotate_role(&mut s, &RotateRole {}, 2, key(5));
    assert_eq!(r, Err(ErrorCode::NotEnoughApprovals));
    assert_eq!(r.unwrap_err().kind(), ErrorKind::State);
    approve(&mut s, 2);
    assert_eq!(rotate_role(&mut s, &RotateRole {}, 3, key(5)), Err(ErrorCode::InvalidRole));
    assert_eq!(rotate_role(&mut s, &RotateRole {}, 2, borrower()), Err(ErrorCode::RoleNotDistinct));
    assert_eq!(rotate_role(&mut s, &RotateRole {}, 2, key(5)), Ok(()));
    assert_eq!(s.lender, key(5));
    assert_eq!(s.approvals_bitmap, 0);
    assert!(is_role(&s, key(5)));
    assert!(!is_role(&s, lender()));
}

#[test]
fn pause_blocks_deposit_and_release_not_approve() {
    let mut s = funded(1_000);
    assert_eq!(pause(&mut s, &Pause { custodian: borrower() }).map(|_| ()), Err(ErrorCode::Unauthorized));
    let (_, signal) = pause(&mut s, &Pause { custodian: custodian() }).unwrap();
    assert!(signal.paused);
    assert_eq!(signal.approvals_bitmap, 0b011);
    assert_eq!(signal.amount_locked, 1_000);
    assert_eq!(release_tokens(&mut s, 10, T0), Err(ErrorCode::Paused));
    assert_eq!(deposit(&mut s, 10), Err(ErrorCode::Paused));
    approve(&mut s, 2);
    assert_eq!(s.approvals_bitmap, 0b111);
    let (_, signal) = unpause(&mut s, &Pause { custodian: custodian() }).unwrap();
    assert!(!signal.paused);
    assert!(release_tokens(&mut s, 10, T0).is_ok());
}

#[test]
fn risk_limits_are_custodian_only_and_bounded() {
    let mut s = new_vault();
    let admin = Admin { custodian: custodian() };
    assert_eq!(set_risk_limits(&mut s, &admin, 10_000, 1, 2, 3), Err(ErrorCode::InvalidRiskParams));
    assert_eq!(set_risk_limits(&mut s, &Admin { custodian: lender() }, 5_000, 1, 2, 3), Err(ErrorCode::Unauthorized));
    assert_eq!(set_price_feed(&mut s, &Admin { custodian: lender() }, feed(), true), Err(ErrorCode::Unauthorized));
    assert_eq!(set_risk_limits(&mut s, &admin, 9_999, 1, 2, 3), Ok(()));
    assert_eq!(s.price_config.max_ltv_bps, 9_999);
    assert_eq!(s.price_config.max_single_release_usd_1e6, 1);
    assert_eq!(s.price_config.daily_cap_usd_1e6, 2);
    assert_eq!(s.price_config.max_price_staleness_secs, 3);
}

#[test]
fn bitmap_helpers() {
    let mut b: u8 = 0;
    set_bit(&mut b, 2);
    assert_eq!(b, 0b100);
    assert!(has_bit(b, 2));
    assert!(!has_bit(b, 0));
    set_bit(&mut b, 0);
    assert_eq!(bitcount(b), 2);
    clear_bit(&mut b, 2);
    assert_eq!(b, 0b001);
    assert_eq!(bitcount(b), 1);
    assert_eq!(bitcount(0xF8), 5);
    assert_eq!(bitcount(0xFF), 8);
    let mut high: u8 = 0;
    set_bit(&mut high, 7);
    assert_eq!(high, 0x80);
    clear_bit(&mut high, 7);
    assert_eq!(high, 0);
}

#[test]
fn powers_of_ten() {
    assert_eq!(ten_pow_u128(0), Some(1));
    assert_eq!(ten_pow_u128(14), Some(100_000_000_000_000));
    assert_eq!(ten_pow_u128(38), Some(10u128.pow(38)));
    assert_eq!(ten_pow_u128(39), None);
    assert_eq!(ten_pow_u128(-1), None);
}

fn put(data: &mut [u8], at: usize, bytes: &[u8]) {
    data[at..at + bytes.len()].copy_from_slice(bytes);
}

/// A price account in the oracle's layout, trading (status 1) or not (0).
fn price_account_bytes(status: u32, price: i64, conf: u64, ts: i64, prev: (i64, u64, i64)) -> Vec<u8> {
    let mut d = vec![0u8; 3312];
    put(&mut d, 0, &0xa1b2c3d4u32.to_le_bytes());
    put(&mut d, 4, &2u32.to_le_bytes());
    put(&mut d, 8, &3u32.to_le_bytes());
    put(&mut d, 12, &3312u32.to_le_bytes());
    put(&mut d, 20, &(-8i32).to_le_bytes());
    put(&mut d, 96, &ts.to_le_bytes());
    put(&mut d, 184, &prev.0.to_le_bytes());
    put(&mut d, 192, &prev.1.to_le_bytes());
    put(&mut d, 200, &prev.2.to_le_bytes());
    put(&mut d, 208, &price.to_le_bytes());
    put(&mut d, 216, &conf.to_le_bytes());
    put(&mut d, 224, &status.to_le_bytes());
    d
}

fn release_ctx(data: Vec<u8>) -> ReleaseCollateral {
    ReleaseCollateral {
        recipient: recipient(),
        vault_authority: authority(),
        vault_ata_owner: authority(),
        pyth_price_acc: Some(PriceAccount { key: feed(), data }),
    }
}

#[test]
fn release_reads_trading_price_from_feed_account() {
    let mut s = usd_vault(1_000_000_000);
    let data = price_account_bytes(1, 100_000_000, 0, T0 - 10, (1, 0, 0));
    let rc = release_collateral(&mut s, &release_ctx(data), 300_000_000, T0).unwrap();
    assert_eq!((rc.released.amount, rc.released.remaining, rc.released.approvals_after), (300_000_000, 700_000_000, 0));
    let used = rc.price_used.unwrap();
    assert_eq!((used.price, used.conf, used.expo, used.publish_time), (100_000_000, 0, -8, T0 - 10));
    assert_eq!(s.released_today_usd_1e6, 300_000_000);
    assert_eq!(s.amount_locked, 700_000_000);
}

#[test]
fn release_uses_previous_price_when_not_trading() {
    let mut s = usd_vault(1_000_000_000);
    // Not trading: the previous price, $2 less $0.50, and its time are used.
    let data = price_account_bytes(0, 100_000_000, 0, T0, (200_000_000, 50_000_000, T0 - 20));
    let rc = release_collateral(&mut s, &release_ctx(data), 100_000_000, T0).unwrap();
    let used = rc.price_used.unwrap();
    assert_eq!((used.price, used.conf, used.publish_time), (200_000_000, 50_000_000, T0 - 20));
    assert_eq!(s.released_today_usd_1e6, 150_000_000);
}

#[test]
fn release_rejects_stale_feed_account() {
    let mut s = usd_vault(1_000_000_000);
    let before = s;
    let data = price_account_bytes(1, 100_000_000, 0, T0 - 91, (1, 0, 0));
    assert_eq!(release_collateral(&mut s, &release_ctx(data), 1, T0), Err(ErrorCode::PriceStale));
    let mut wrong_version = price_account_bytes(1, 100_000_000, 0, T0, (1, 0, 0));
    put(&mut wrong_version, 4, &1u32.to_le_bytes());
    assert_eq!(release_collateral(&mut s, &release_ctx(wrong_version), 1, T0), Err(ErrorCode::PriceAccountInvalid));
    assert_eq!(s, before);
}

