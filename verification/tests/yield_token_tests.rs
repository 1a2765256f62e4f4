use yield_split::errors::Error;
use yield_split::mock_vault::MockVault;
use yield_split::oracle::VaultType;
use yield_split::principal_token::PrincipalToken;
use yield_split::yield_manager::YieldManager;
use yield_split::yield_token::YieldToken;

const ADMIN: usize = 1;
const USER1: usize = 2;
const USER2: usize = 3;
const DEPOSITOR: usize = 4;
const MGR: usize = 10;
const PT: usize = 11;
const YT: usize = 12;
const VAULT: usize = 20;
const ASSET: usize = 21;

const MATURITY: u64 = 1000;

struct Fixture {
    vault: MockVault,
    mgr: YieldManager,
    #[allow(dead_code)]
    pt: PrincipalToken,
    yt: YieldToken,
}

/// A bootstrapped series whose clearinghouse already holds plenty of vault
/// shares, so claims can be paid out.
fn setup() -> Fixture {
    let mut vault = MockVault::new(ASSET, 1, 0);

    let funding = 1_000_000_0000000i128;
    let shares = vault.deposit(DEPOSITOR, DEPOSITOR, funding, 0).unwrap();
    vault.transfer(DEPOSITOR, DEPOSITOR, MGR, shares).unwrap();

    let quote = vault.exchange_rate(0);
    let mut mgr = YieldManager::new(MGR, ADMIN, VAULT, VaultType::Vault4626, MATURITY, Some(quote))
        .unwrap();
    let pt = PrincipalToken::new(MGR, "Principal Token".to_owned(), "PT".to_owned(), 7);
    let yt = YieldToken::new(YT, MGR, "Yield Token".to_owned(), "YT".to_owned(), 7);
    mgr.set_token_contracts(ADMIN, PT, YT).unwrap();
    Fixture { vault, mgr, pt, yt }
}

fn get_exchange_rate(f: &mut Fixture, now: u64) -> i128 {
    let quote = f.vault.exchange_rate(now);
    f.mgr.get_exchange_rate(now, Some(quote)).unwrap()
}

fn mint_yt(f: &mut Fixture, to: usize, amount: i128, exchange_rate: i128) {
    f.yt.mint(MGR, to, amount, exchange_rate).unwrap();
}

fn claim_yield(f: &mut Fixture, user: usize, now: u64) -> i128 {
    let quote = f.vault.exchange_rate(now);
    let claimed = f.yt.claim_yield(&mut f.mgr, user, user, now, Some(quote)).unwrap();
    if claimed > 0 {
        f.vault.transfer(MGR, MGR, user, claimed).unwrap();
    }
    claimed
}

fn transfer(f: &mut Fixture, from: usize, to: usize, amount: i128, now: u64) {
    let quote = f.vault.exchange_rate(now);
    f.yt.transfer(&mut f.mgr, from, from, to, amount, now, Some(quote)).unwrap();
}

#[test]
fn yield_token_tests_test_initialization() {
    let f = setup();

    assert_eq!(f.yt.name().as_str(), "Yield Token");
    assert_eq!(f.yt.symbol().as_str(), "YT");
    assert_eq!(f.yt.decimals(), 7u32);
}

#[test]
fn yield_token_tests_test_mint_sets_initial_index() {
    let mut f = setup();

    let mint_amount = 1_000_000i128;
    let exchange_rate = 1_000_000i128;

    mint_yt(&mut f, USER1, mint_amount, exchange_rate);

    assert_eq!(f.yt.balance(USER1), mint_amount);
    assert_eq!(f.yt.user_index(USER1), exchange_rate);
}

#[test]
fn yield_token_tests_test_yield_accrues_when_exchange_rate_increases() {
    let mut f = setup();

    let mint_amount = 1_000_000_000_000i128;
    let initial_rate = get_exchange_rate(&mut f, 0);
    mint_yt(&mut f, USER1, mint_amount, initial_rate);

    let initial_accrued = f.yt.accrued_yield(USER1);
    assert_eq!(initial_accrued, 0);

    let new_rate = get_exchange_rate(&mut f, 100);
    assert!(new_rate > initial_rate, "Exchange rate should increase");

    let claimed = claim_yield(&mut f, USER1, 100);
    assert!(claimed > 0, "Should have claimed some yield");

    let vault_balance = f.vault.balance(USER1);
    assert_eq!(vault_balance, claimed);
}

#[test]
fn yield_token_tests_test_user_index_updates_after_accrual() {
    let mut f = setup();

    let mint_amount = 1_000_000_000_000i128;
    let initial_rate = get_exchange_rate(&mut f, 0);
    mint_yt(&mut f, USER1, mint_amount, initial_rate);

    let initial_index = f.yt.user_index(USER1);
    assert_eq!(initial_index, initial_rate);

    let new_rate = get_exchange_rate(&mut f, 200);

    claim_yield(&mut f, USER1, 200);

    let updated_index = f.yt.user_index(USER1);
    assert_eq!(updated_index, new_rate);
}

#[test]
fn yield_token_tests_test_multiple_claims_accumulate_yield() {
    let mut f = setup();

    let mint_amount = 1_000_000_000_000i128;
    let initial_rate = get_exchange_rate(&mut f, 0);
    mint_yt(&mut f, USER1, mint_amount, initial_rate);

    let claimed1 = claim_yield(&mut f, USER1, 100);
    assert!(claimed1 > 0);

    let claimed2 = claim_yield(&mut f, USER1, 200);
    assert!(claimed2 > 0);

    let total_vault_balance = f.vault.balance(USER1);
    assert_eq!(total_vault_balance, claimed1 + claimed2);
}

#[test]
fn yield_token_tests_test_transfer_accrues_yield_for_both_parties() {
    let mut f = setup();

    let mint_amount = 2_000_000_000_000i128;
    let initial_rate = get_exchange_rate(&mut f, 0);
    mint_yt(&mut f, USER1, mint_amount, initial_rate);

    let new_rate = get_exchange_rate(&mut f, 100);

    let transfer_amount = 1_000_000_000_000i128;
    transfer(&mut f, USER1, USER2, transfer_amount, 100);

    let accrued1 = f.yt.accrued_yield(USER1);
    assert!(accrued1 > 0);

    let user2_index = f.yt.user_index(USER2);
    assert_eq!(user2_index, new_rate);

    assert_eq!(f.yt.balance(USER1), mint_amount - transfer_amount);
    assert_eq!(f.yt.balance(USER2), transfer_amount);
}

#[test]
fn yield_token_tests_test_transfer_to_existing_user_preserves_index() {
    let mut f = setup();

    let initial_rate = get_exchange_rate(&mut f, 0);

    mint_yt(&mut f, USER1, 1_000_000_000_000i128, initial_rate);
    mint_yt(&mut f, USER2, 1_000_000_000_000i128, initial_rate);

    let new_rate = get_exchange_rate(&mut f, 100);

    transfer(&mut f, USER1, USER2, 500_000_000_000i128, 100);

    let accrued1 = f.yt.accrued_yield(USER1);
    let accrued2 = f.yt.accrued_yield(USER2);

    assert!(accrued1 > 0);
    assert!(accrued2 > 0);

    assert_eq!(f.yt.user_index(USER1), new_rate);
    assert_eq!(f.yt.user_index(USER2), new_rate);
}

#[test]
fn yield_token_tests_test_burn_accrues_yield_before_burning() {
    let mut f = setup();

    let mint_amount = 1_000_000_000_000i128;
    let initial_rate = get_exchange_rate(&mut f, 0);
    mint_yt(&mut f, USER1, mint_amount, initial_rate);

    let burn_amount = 500_000_000_000i128;
    let quote = f.vault.exchange_rate(100);
    f.yt.burn(&mut f.mgr, USER1, USER1, burn_amount, 100, Some(quote)).unwrap();

    let accrued = f.yt.accrued_yield(USER1);
    assert!(accrued > 0);

    assert_eq!(f.yt.balance(USER1), mint_amount - burn_amount);
    assert_eq!(f.yt.total_supply(), mint_amount - burn_amount);
}

#[test]
fn yield_token_tests_test_no_yield_if_rate_unchanged() {
    let mut f = setup();

    let mint_amount = 1_000_000_000_000i128;
    let initial_rate = get_exchange_rate(&mut f, 0);
    mint_yt(&mut f, USER1, mint_amount, initial_rate);

    let claimed = claim_yield(&mut f, USER1, 0);
    assert_eq!(claimed, 0);

    let vault_balance = f.vault.balance(USER1);
    assert_eq!(vault_balance, 0);
}

#[test]
fn yield_token_tests_test_proportional_yield_distribution() {
    let mut f = setup();

    let initial_rate = get_exchange_rate(&mut f, 0);

    mint_yt(&mut f, USER1, 2_000_000_000_000i128, initial_rate);
    mint_yt(&mut f, USER2, 1_000_000_000_000i128, initial_rate);

    let claimed1 = claim_yield(&mut f, USER1, 100);
    let claimed2 = claim_yield(&mut f, USER2, 100);

    assert!(claimed1 > 0);
    assert!(claimed2 > 0);

    let ratio = claimed1 * 100 / claimed2;
    assert!(ratio >= 190 && ratio <= 210, "Ratio should be ~200, got {}", ratio);
}

#[test]
fn yield_token_tests_test_mint_to_existing_user_preserves_high_water_mark() {
    let mut f = setup();

    let initial_rate = get_exchange_rate(&mut f, 0);

    mint_yt(&mut f, USER1, 1_000_000_000_000i128, initial_rate);

    let new_rate = get_exchange_rate(&mut f, 100);

    mint_yt(&mut f, USER1, 1_000_000_000_000i128, new_rate);

    let user_index = f.yt.user_index(USER1);
    assert_eq!(user_index, new_rate);

    let accrued = f.yt.accrued_yield(USER1);
    assert!(accrued > 0);
}

#[test]
fn yield_token_tests_test_sep41_balance_function() {
    let mut f = setup();

    let mint_amount = 1_000_000i128;
    let exchange_rate = 1_000_000i128;

    mint_yt(&mut f, USER1, mint_amount, exchange_rate);

    assert_eq!(f.yt.balance(USER1), mint_amount);
}

#[test]
fn yield_token_tests_test_total_supply_tracking() {
    let mut f = setup();

    assert_eq!(f.yt.total_supply(), 0);

    let mint_amount = 1_000_000i128;
    let exchange_rate = 1_000_000i128;

    mint_yt(&mut f, USER1, mint_amount, exchange_rate);
    assert_eq!(f.yt.total_supply(), mint_amount);

    mint_yt(&mut f, USER2, mint_amount, exchange_rate);
    assert_eq!(f.yt.total_supply(), mint_amount * 2);
}

#[test]
fn yield_token_tests_test_transfer_insufficient_balance() {
    let mut f = setup();

    let mint_amount = 1_000i128;
    let exchange_rate = 1_000_000i128;
    mint_yt(&mut f, USER1, mint_amount, exchange_rate);

    let quote = f.vault.exchange_rate(0);
    let r = f.yt.transfer(&mut f.mgr, USER1, USER1, USER2, mint_amount + 1, 0, Some(quote));
    assert_eq!(r, Err(Error::InsufficientBalance));
}

#[test]
fn yield_token_tests_test_burn_insufficient_balance() {
    let mut f = setup();

    let mint_amount = 1_000i128;
    let exchange_rate = 1_000_000i128;
    mint_yt(&mut f, USER1, mint_amount, exchange_rate);

    let quote = f.vault.exchange_rate(0);
    let r = f.yt.burn(&mut f.mgr, USER1, USER1, mint_amount + 1, 0, Some(quote));
    assert_eq!(r, Err(Error::InsufficientBalance));
}

#[test]
fn yield_token_tests_test_zero_balance_user_can_claim() {
    let mut f = setup();

    let claimed = claim_yield(&mut f, USER1, 0);
    assert_eq!(claimed, 0);
}
