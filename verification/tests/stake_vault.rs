use std::collections::HashMap;

use learnault::account::AccountId;
use learnault::ledger::{Party, Transfer};
use learnault::stake_vault::{
    default_multiplier_tiers, select_multiplier, validate_tiers, MultiplierTier, StakeInfo,
    StakeVault, StakeVaultError, LOCK_PERIOD,
};

fn account(tag: u8) -> AccountId {
    let mut key = [b'A'; 56];
    key[0] = b'G';
    key[55] = tag;
    AccountId::new(key)
}

/// Token balances, with the vault itself under its own entry.
struct Balances {
    vault: i128,
    accounts: HashMap<[u8; 56], i128>,
}

impl Balances {
    fn new() -> Self {
        Balances { vault: 0, accounts: HashMap::new() }
    }

    fn mint(&mut self, who: AccountId, amount: i128) {
        *self.accounts.entry(who.key).or_insert(0) += amount;
    }

    fn of(&self, who: AccountId) -> i128 {
        *self.accounts.get(&who.key).unwrap_or(&0)
    }

    fn slot(&mut self, p: Party) -> &mut i128 {
        match p {
            Party::ThisContract => &mut self.vault,
            Party::Account(a) => self.accounts.entry(a.key).or_insert(0),
        }
    }

    fn apply(&mut self, t: Transfer) {
        assert!(t.amount >= 0);
        let from = self.slot(t.from);
        assert!(*from >= t.amount, "insufficient balance");
        *from -= t.amount;
        *self.slot(t.to) += t.amount;
    }
}

fn initialized() -> (StakeVault, AccountId, AccountId) {
    let admin = account(1);
    let token = account(2);
    let mut vault = StakeVault::new();
    vault.initialize(admin, token).unwrap();
    (vault, admin, token)
}

fn stake(vault: &mut StakeVault, bal: &mut Balances, user: AccountId, amount: i128, now: u64) {
    let deposit = vault.stake(user, amount, now).unwrap();
    bal.apply(deposit.transfer);
}

fn unstake(vault: &mut StakeVault, bal: &mut Balances, user: AccountId, now: u64) -> Result<(), StakeVaultError> {
    let withdrawal = vault.unstake(user, now)?;
    bal.apply(withdrawal.transfer);
    Ok(())
}

#[test]
fn test_stake_transfers_and_accumulates() {
    let (mut vault, _admin, _token) = initialized();
    let user = account(3);
    let mut bal = Balances::new();
    bal.mint(user, 1000);

    stake(&mut vault, &mut bal, user, 100, 1_000_000);
    assert_eq!(bal.of(user), 900);
    assert_eq!(bal.vault, 100);

    stake(&mut vault, &mut bal, user, 50, 1_000_100);
    assert_eq!(bal.of(user), 850);
    assert_eq!(bal.vault, 150);

    unstake(&mut vault, &mut bal, user, 1_000_100 + 604800).unwrap();
    assert_eq!(bal.of(user), 1000);
    assert_eq!(bal.vault, 0);
}

#[test]
fn test_stake_resets_lock_timestamp() {
    let (mut vault, _admin, _token) = initialized();
    let user = account(3);
    let mut bal = Balances::new();
    bal.mint(user, 1000);

    stake(&mut vault, &mut bal, user, 100, 10_000);
    stake(&mut vault, &mut bal, user, 50, 10_100);

    let err = unstake(&mut vault, &mut bal, user, 10_000 + 604800).unwrap_err();
    assert_eq!(err.message(), "Lock period active");
}

#[test]
fn test_unstake_panics_when_lock_period_active() {
    let (mut vault, _admin, _token) = initialized();
    let user = account(3);
    let mut bal = Balances::new();
    bal.mint(user, 1000);

    stake(&mut vault, &mut bal, user, 100, 2_000_000);
    let err = unstake(&mut vault, &mut bal, user, 2_000_000 + 604799).unwrap_err();
    assert_eq!(err.message(), "Lock period active");
}

#[test]
fn test_unstake_succeeds_after_lock() {
    let (mut vault, _admin, _token) = initialized();
    let user = account(3);
    let mut bal = Balances::new();
    bal.mint(user, 1000);

    stake(&mut vault, &mut bal, user, 250, 3_000_000);
    unstake(&mut vault, &mut bal, user, 3_000_000 + 604800).unwrap();

    assert_eq!(bal.of(user), 1000);
    assert_eq!(bal.vault, 0);
}

#[test]
fn test_unstake_twice_panics_after_withdrawal() {
    let (mut vault, _admin, _token) = initialized();
    let user = account(3);
    let mut bal = Balances::new();
    bal.mint(user, 1000);

    stake(&mut vault, &mut bal, user, 100, 4_000_000);
    unstake(&mut vault, &mut bal, user, 4_000_000 + 604800).unwrap();
    let err = unstake(&mut vault, &mut bal, user, 4_000_000 + 604800).unwrap_err();
    assert_eq!(err.message(), "No stake found");
}

#[test]
fn test_get_multiplier() {
    let mut vault = StakeVault::new();
    let user = account(3);

    assert_eq!(vault.get_multiplier(user), 100);

    for (amount, expected) in [(50, 100), (100, 120), (499, 120), (500, 200), (1000, 200)] {
        vault.stakes.insert(user, StakeInfo { amount, lock_timestamp: 0 });
        assert_eq!(vault.get_multiplier(user), expected);
    }
}

#[test]
fn test_set_multiplier_tiers_success() {
    let (mut vault, admin, _token) = initialized();
    let user = account(3);

    let new_tiers = vec![
        MultiplierTier { min_stake: 1000, multiplier: 300 },
        MultiplierTier { min_stake: 200, multiplier: 150 },
    ];

    let event = vault.set_multiplier_tiers(admin, new_tiers.clone()).unwrap();
    assert_eq!(event.tiers, new_tiers);
    assert_eq!(vault.get_multiplier_tiers(), new_tiers);

    vault.stakes.insert(user, StakeInfo { amount: 150, lock_timestamp: 0 });
    assert_eq!(vault.get_multiplier(user), 100);

    vault.stakes.insert(user, StakeInfo { amount: 200, lock_timestamp: 0 });
    assert_eq!(vault.get_multiplier(user), 150);

    vault.stakes.insert(user, StakeInfo { amount: 1000, lock_timestamp: 0 });
    assert_eq!(vault.get_multiplier(user), 300);
}

#[test]
fn test_set_multiplier_tiers_unauthorized() {
    let (mut vault, _admin, _token) = initialized();
    let non_admin = account(9);
    let new_tiers = vec![MultiplierTier { min_stake: 500, multiplier: 200 }];

    let err = vault.set_multiplier_tiers(non_admin, new_tiers).unwrap_err();
    assert_eq!(err.message(), "Unauthorized");
}

#[test]
fn test_set_multiplier_tiers_invalid_order() {
    let (mut vault, admin, _token) = initialized();
    let invalid_tiers = vec![
        MultiplierTier { min_stake: 100, multiplier: 120 },
        MultiplierTier { min_stake: 500, multiplier: 200 },
    ];

    let err = vault.set_multiplier_tiers(admin, invalid_tiers).unwrap_err();
    assert_eq!(err.message(), "Tier min_stake must be strictly descending");
}

#[test]
fn test_set_multiplier_tiers_invalid_min_stake() {
    let (mut vault, admin, _token) = initialized();
    let invalid_tiers = vec![MultiplierTier { min_stake: 0, multiplier: 150 }];

    let err = vault.set_multiplier_tiers(admin, invalid_tiers).unwrap_err();
    assert_eq!(err.message(), "Tier min_stake must be positive");
}

#[test]
fn test_set_multiplier_tiers_invalid_multiplier() {
    let (mut vault, admin, _token) = initialized();
    let invalid_tiers = vec![MultiplierTier { min_stake: 500, multiplier: 0 }];

    let err = vault.set_multiplier_tiers(admin, invalid_tiers).unwrap_err();
    assert_eq!(err.message(), "Tier multiplier must be non-zero");
}

// ── Further cases ──────────────────────────────────────────────────────────────

#[test]
fn initialize_twice_is_refused() {
    let (mut vault, admin, token) = initialized();
    assert_eq!(vault.initialize(admin, token), Err(StakeVaultError::AlreadyInitialized));
}

#[test]
fn initialize_installs_default_tiers() {
    let (vault, admin, token) = initialized();
    assert_eq!(vault.admin, Some(admin));
    assert_eq!(vault.token, Some(token));
    assert_eq!(
        vault.get_multiplier_tiers(),
        vec![
            MultiplierTier { min_stake: 500, multiplier: 200 },
            MultiplierTier { min_stake: 100, multiplier: 120 },
        ]
    );
    assert_eq!(default_multiplier_tiers(), vault.get_multiplier_tiers());
}

#[test]
fn set_tiers_before_initialize_is_refused() {
    let mut vault = StakeVault::new();
    let err = vault.set_multiplier_tiers(account(1), vec![]).unwrap_err();
    assert_eq!(err.message(), "Not initialized");
}

#[test]
fn stake_requires_positive_amount() {
    let (mut vault, _admin, _token) = initialized();
    assert_eq!(vault.stake(account(3), 0, 5).unwrap_err().message(), "Amount must be positive");
    assert_eq!(vault.stake(account(3), -7, 5).unwrap_err(), StakeVaultError::AmountNotPositive);
}

#[test]
fn stake_before_initialize_is_refused() {
    let mut vault = StakeVault::new();
    assert_eq!(vault.stake(account(3), 10, 5).unwrap_err().message(), "Not initialized");
}

#[test]
fn stake_overflow_is_refused() {
    let (mut vault, _admin, _token) = initialized();
    let user = account(3);
    vault.stake(user, i128::MAX, 1).unwrap();
    assert_eq!(vault.stake(user, 1, 2).unwrap_err(), StakeVaultError::Overflow);
    assert_eq!(vault.stakes.get(&user).unwrap().amount, i128::MAX);
}

#[test]
fn stake_reports_running_total_and_lock() {
    let (mut vault, _admin, token) = initialized();
    let user = account(3);
    let first = vault.stake(user, 40, 100).unwrap();
    assert_eq!(first.event.total_staked, 40);
    let second = vault.stake(user, 60, 250).unwrap();
    assert_eq!(second.event.total_staked, 100);
    assert_eq!(second.event.lock_timestamp, 250);
    assert_eq!(
        second.transfer,
        Transfer { token, from: Party::Account(user), to: Party::ThisContract, amount: 60 }
    );
    assert_eq!(vault.stakes.get(&user), Some(&StakeInfo { amount: 100, lock_timestamp: 250 }));
}

#[test]
fn unstake_exactly_at_unlock_time_succeeds() {
    let (mut vault, _admin, _token) = initialized();
    let user = account(3);
    vault.stake(user, 10, 1000).unwrap();
    let w = vault.unstake(user, 1000 + LOCK_PERIOD).unwrap();
    assert_eq!(w.event.amount, 10);
    assert!(!vault.stakes.contains_key(&user));
}

#[test]
fn unstake_with_lock_near_time_limit_overflows() {
    let (mut vault, _admin, _token) = initialized();
    let user = account(3);
    vault.stakes.insert(user, StakeInfo { amount: 5, lock_timestamp: u64::MAX - 1 });
    assert_eq!(vault.unstake(user, u64::MAX).unwrap_err(), StakeVaultError::Overflow);
}

#[test]
fn tier_selection_follows_brackets() {
    let tiers = vec![
        MultiplierTier { min_stake: 1000, multiplier: 300 },
        MultiplierTier { min_stake: 200, multiplier: 150 },
        MultiplierTier { min_stake: 50, multiplier: 110 },
    ];
    assert_eq!(select_multiplier(&tiers, 49), 100);
    assert_eq!(select_multiplier(&tiers, 50), 110);
    assert_eq!(select_multiplier(&tiers, 199), 110);
    assert_eq!(select_multiplier(&tiers, 200), 150);
    assert_eq!(select_multiplier(&tiers, 999), 150);
    assert_eq!(select_multiplier(&tiers, 1000), 300);
    assert_eq!(select_multiplier(&vec![], 1000), 100);
}

#[test]
fn validation_reports_first_fault() {
    let tiers = vec![
        MultiplierTier { min_stake: 500, multiplier: 0 },
        MultiplierTier { min_stake: -1, multiplier: 10 },
    ];
    assert_eq!(validate_tiers(&tiers), Err(StakeVaultError::TierMultiplierZero));
    assert_eq!(validate_tiers(&vec![]), Ok(()));
    let equal = vec![
        MultiplierTier { min_stake: 500, multiplier: 2 },
        MultiplierTier { min_stake: 500, multiplier: 1 },
    ];
    assert_eq!(validate_tiers(&equal), Err(StakeVaultError::TiersNotDescending));
}

#[test]
fn vault_upgrade_requires_admin() {
    let (vault, admin, _token) = initialized();
    let hash = [7u8; 32];
    assert_eq!(vault.upgrade_contract(admin, hash).unwrap().new_wasm_hash, hash);
    assert_eq!(vault.upgrade_contract(account(9), hash).unwrap_err().message(), "Unauthorized");
    assert_eq!(StakeVault::new().upgrade_contract(admin, hash).unwrap_err().message(), "Not initialized");
}
