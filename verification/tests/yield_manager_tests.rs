use yield_split::errors::Error;
use yield_split::mock_vault::MockVault;
use yield_split::oracle::VaultType;
use yield_split::principal_token::PrincipalToken;
use yield_split::yield_manager::YieldManager;
use yield_split::yield_token::YieldToken;

const ADMIN: usize = 1;
const USER1: usize = 2;
const USER2: usize = 3;
const MGR: usize = 10;
const PT: usize = 11;
const YT: usize = 12;
const VAULT: usize = 20;
const ASSET: usize = 21;

const MATURITY: u64 = 1000;

struct Setup {
    vault: MockVault,
    mgr: YieldManager,
    pt: PrincipalToken,
    yt: YieldToken,
}

/// One freshly bootstrapped series over a mock vault that yields one basis
/// point per second, maturing at time 1000.
fn setup() -> Setup {
    let vault = MockVault::new(ASSET, 1, 0);
    let quote = vault.exchange_rate(0);
    let mut mgr = YieldManager::new(MGR, ADMIN, VAULT, VaultType::Vault4626, MATURITY, Some(quote))
        .unwrap();
    let pt = PrincipalToken::new(MGR, "Principal Token".to_owned(), "PT".to_owned(), 7);
    let yt = YieldToken::new(YT, MGR, "Yield Token".to_owned(), "YT".to_owned(), 7);
    mgr.set_token_contracts(ADMIN, PT, YT).unwrap();
    Setup { vault, mgr, pt, yt }
}

/// Queries the vault and refreshes the clearinghouse, as the host does at
/// the top of every call.
fn rate(s: &mut Setup, now: u64) -> i128 {
    let quote = s.vault.exchange_rate(now);
    s.mgr.get_exchange_rate(now, Some(quote)).unwrap()
}

/// A user turns `assets` of the underlying into vault shares, then deposits
/// them with the clearinghouse; the host-side share transfer follows.
fn deposit(s: &mut Setup, user: usize, assets: i128, now: u64) -> i128 {
    let shares = s.vault.deposit(user, user, assets, now).unwrap();
    let quote = s.vault.exchange_rate(now);
    s.mgr
        .deposit(&mut s.pt, &mut s.yt, user, user, shares, now, Some(quote))
        .unwrap();
    s.vault.transfer(user, user, MGR, shares).unwrap();
    shares
}

/// A user claims accrued yield; the host-side share payout follows.
fn claim(s: &mut Setup, user: usize, now: u64) -> i128 {
    let quote = s.vault.exchange_rate(now);
    let claimed = s.yt.claim_yield(&mut s.mgr, user, user, now, Some(quote)).unwrap();
    if claimed > 0 {
        s.vault.transfer(MGR, MGR, user, claimed).unwrap();
    }
    claimed
}

#[test]
fn test_test_initialization() {
    let s = setup();
    assert_eq!(s.mgr.get_vault(), VAULT);
    assert_eq!(s.mgr.get_maturity(), MATURITY);
}

#[test]
fn test_deposit_mints_pt_and_yt() {
    let mut s = setup();

    let deposit_amount = 1_000_0000i128;
    let shares = deposit(&mut s, USER1, deposit_amount, 0);

    let pt_balance = s.pt.balance(USER1);
    let yt_balance = s.yt.balance(USER1);

    let expected_balance = shares * 1_000_000;
    assert_eq!(pt_balance, expected_balance);
    assert_eq!(yt_balance, expected_balance);

    let ym_vault_balance = s.vault.balance(MGR);
    assert_eq!(ym_vault_balance, shares);
}

#[test]
fn test_exchange_rate_increases_over_time() {
    let mut s = setup();

    let initial_rate = rate(&mut s, 0);
    let new_rate = rate(&mut s, 100);

    assert!(new_rate > initial_rate);
}

#[test]
fn test_yt_accrues_yield_over_time() {
    let mut s = setup();

    let deposit_amount = 1_000_0000i128;
    deposit(&mut s, USER1, deposit_amount, 0);

    let initial_accrued = s.yt.accrued_yield(USER1);
    assert_eq!(initial_accrued, 0);

    let claimed = claim(&mut s, USER1, 100);
    assert!(claimed > 0);

    let user_vault_balance = s.vault.balance(USER1);
    assert_eq!(user_vault_balance, claimed);
}

#[test]
fn test_exchange_rate_locks_at_maturity() {
    let mut s = setup();

    let rate_before_maturity = rate(&mut s, 500);
    let rate_at_maturity = rate(&mut s, 1100);

    assert!(rate_at_maturity > rate_before_maturity);

    let rate_after_maturity = rate(&mut s, 2100);
    assert_eq!(rate_after_maturity, rate_at_maturity);
}

#[test]
fn test_exchange_rate_high_water_mark() {
    let mut s = setup();

    let initial_rate = rate(&mut s, 0);
    let higher_rate = rate(&mut s, 100);
    assert!(higher_rate > initial_rate);

    s.vault.set_yield_rate(-100);

    let rate_after_vault_decrease = rate(&mut s, 150);
    assert_eq!(rate_after_vault_decrease, higher_rate);

    let vault_rate = s.vault.exchange_rate(150);
    assert!(vault_rate < higher_rate, "Vault rate should have decreased");
}

#[test]
fn test_cannot_redeem_principal_before_maturity() {
    let mut s = setup();

    let deposit_amount = 1_000_0000i128;
    deposit(&mut s, USER1, deposit_amount, 0);

    let pt_balance = s.pt.balance(USER1);
    let r = s.mgr.redeem_principal(&mut s.pt, USER1, USER1, pt_balance, 0);
    assert_eq!(r, Err(Error::MaturityNotReached));
}

#[test]
fn test_redeem_principal_after_maturity() {
    let mut s = setup();

    let deposit_amount = 1_000_0000i128;
    deposit(&mut s, USER1, deposit_amount, 0);

    let pt_balance = s.pt.balance(USER1);

    let shares_back = s.mgr.redeem_principal(&mut s.pt, USER1, USER1, pt_balance, 1100).unwrap();

    let pt_balance_after = s.pt.balance(USER1);
    assert_eq!(pt_balance_after, 0);

    s.vault.transfer(MGR, MGR, USER1, shares_back).unwrap();
    let user_vault_balance = s.vault.balance(USER1);
    assert!(user_vault_balance > 0);
}

#[test]
fn test_multiple_users_deposit() {
    let mut s = setup();

    let deposit1 = 1_000_0000i128;
    deposit(&mut s, USER1, deposit1, 0);

    let deposit2 = 2_000_0000i128;
    deposit(&mut s, USER2, deposit2, 0);

    let pt1 = s.pt.balance(USER1);
    let pt2 = s.pt.balance(USER2);

    assert!(pt2 > pt1);
    assert!(pt2 >= pt1 * 2 - 100);
}

#[test]
fn test_yield_distribution_proportional() {
    let mut s = setup();

    let deposit_amount = 1_000_0000i128;
    deposit(&mut s, USER1, deposit_amount, 0);
    deposit(&mut s, USER2, deposit_amount, 0);

    let claimed1 = claim(&mut s, USER1, 200);
    let claimed2 = claim(&mut s, USER2, 200);

    let diff = if claimed1 > claimed2 { claimed1 - claimed2 } else { claimed2 - claimed1 };
    assert!(diff < claimed1 / 100);
}

#[test]
fn test_pt_transferable() {
    let mut s = setup();

    let deposit_amount = 1_000_0000i128;
    deposit(&mut s, USER1, deposit_amount, 0);

    let pt_balance = s.pt.balance(USER1);
    let transfer_amount = pt_balance / 2;
    s.pt.transfer(USER1, USER1, USER2, transfer_amount).unwrap();

    let pt1_after = s.pt.balance(USER1);
    let pt2_after = s.pt.balance(USER2);

    assert_eq!(pt1_after, pt_balance - transfer_amount);
    assert_eq!(pt2_after, transfer_amount);
}

#[test]
fn test_yt_transferable() {
    let mut s = setup();

    let deposit_amount = 1_000_0000i128;
    deposit(&mut s, USER1, deposit_amount, 0);

    let yt_balance = s.yt.balance(USER1);
    let transfer_amount = yt_balance / 2;
    let quote = s.vault.exchange_rate(0);
    s.yt
        .transfer(&mut s.mgr, USER1, USER1, USER2, transfer_amount, 0, Some(quote))
        .unwrap();

    let yt1_after = s.yt.balance(USER1);
    let yt2_after = s.yt.balance(USER2);

    assert_eq!(yt1_after, yt_balance - transfer_amount);
    assert_eq!(yt2_after, transfer_amount);
}
