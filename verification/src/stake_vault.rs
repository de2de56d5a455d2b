use vstd::prelude::*;

use crate::account::AccountId;
use crate::ledger::{Party, Transfer};
use crate::table::Table;

verus! {

/// Seconds a stake stays locked after its latest deposit.
pub const LOCK_PERIOD: u64 = 604800;

/// The multiplier, in hundredths, of a learner whose stake reaches no tier.
pub const BASE_MULTIPLIER: u32 = 100;

/// A learner's locked stake.
#[derive(Clone, Copy, Debug, PartialEq, Eq)]
pub struct StakeInfo {
    pub amount: i128,
    pub lock_timestamp: u64,
}

/// A reward multiplier granted from a minimum stake on.
#[derive(Clone, Copy, Debug, PartialEq, Eq)]
pub struct MultiplierTier {
    pub min_stake: i128,
    pub multiplier: u32,
}

/// Why a stake vault operation was refused.
#[derive(Clone, Copy, Debug, PartialEq, Eq)]
pub enum StakeVaultError {
    AlreadyInitialized,
    NotInitialized,
    Unauthorized,
    TierMinStakeNotPositive,
    TierMultiplierZero,
    TiersNotDescending,
    AmountNotPositive,
    NoStakeFound,
    LockPeriodActive,
    Overflow,
}

impl StakeVaultError {
    /// The text with which the contract aborts.
    pub fn message(&self) -> (r: &'static str)
        ensures
            r@ == self.message_text(),
    {
        match self {
            StakeVaultError::AlreadyInitialized => "Already initialized",
            StakeVaultError::NotInitialized => "Not initialized",
            StakeVaultError::Unauthorized => "Unauthorized",
            StakeVaultError::TierMinStakeNotPositive => "Tier min_stake must be positive",
            StakeVaultError::TierMultiplierZero => "Tier multiplier must be non-zero",
            StakeVaultError::TiersNotDescending => "Tier min_stake must be strictly descending",
            StakeVaultError::AmountNotPositive => "Amount must be positive",
            StakeVaultError::NoStakeFound => "No stake found",
            StakeVaultError::LockPeriodActive => "Lock period active",
            StakeVaultError::Overflow => "Arithmetic overflow",
        }
    }

    /// The text with which the contract aborts, as characters.
    pub open spec fn message_text(&self) -> Seq<char> {
        match self {
            StakeVaultError::AlreadyInitialized => "Already initialized"@,
            StakeVaultError::NotInitialized => "Not initialized"@,
            StakeVaultError::Unauthorized => "Unauthorized"@,
            StakeVaultError::TierMinStakeNotPositive => "Tier min_stake must be positive"@,
            StakeVaultError::TierMultiplierZero => "Tier multiplier must be non-zero"@,
            StakeVaultError::TiersNotDescending => "Tier min_stake must be strictly descending"@,
            StakeVaultError::AmountNotPositive => "Amount must be positive"@,
            StakeVaultError::NoStakeFound => "No stake found"@,
            StakeVaultError::LockPeriodActive => "Lock period active"@,
            StakeVaultError::Overflow => "Arithmetic overflow"@,
        }
    }
}

#[derive(Clone, Copy, Debug, PartialEq, Eq)]
pub struct StakeVaultInitialized {
    pub admin: AccountId,
    pub token: AccountId,
}

#[derive(Clone, Copy, Debug, PartialEq, Eq)]
pub struct Staked {
    pub user: AccountId,
    pub amount: i128,
    pub total_staked: i128,
    pub lock_timestamp: u64,
}

#[derive(Clone, Copy, Debug, PartialEq, Eq)]
pub struct Unstaked {
    pub user: AccountId,
    pub amount: i128,
}

#[derive(Debug, PartialEq, Eq)]
pub struct MultiplierTiersUpdated {
    pub admin: AccountId,
    pub tiers: Vec<MultiplierTier>,
}

#[derive(Clone, Copy, Debug, PartialEq, Eq)]
pub struct ContractUpgraded {
    pub admin: AccountId,
    pub new_wasm_hash: [u8; 32],
}

/// What a successful stake asks of the host: the deposit and its event.
#[derive(Clone, Copy, Debug, PartialEq, Eq)]
pub struct StakeDeposit {
    pub transfer: Transfer,
    pub event: Staked,
}

/// What a successful unstake asks of the host: the withdrawal and its event.
#[derive(Clone, Copy, Debug, PartialEq, Eq)]
pub struct StakeWithdrawal {
    pub transfer: Transfer,
    pub event: Unstaked,
}

/// The stored state of the stake vault.
pub struct StakeVault {
    pub admin: Option<AccountId>,
    pub token: Option<AccountId>,
    /// The configured tiers; the default tiers apply while none are stored.
    pub tiers: Option<Vec<MultiplierTier>>,
    pub stakes: Table<AccountId, StakeInfo>,
}

/// The tiers that apply before any are configured.
pub open spec fn default_tier_seq() -> Seq<MultiplierTier> {
    seq![
        MultiplierTier { min_stake: 500, multiplier: 200 },
        MultiplierTier { min_stake: 100, multiplier: 120 },
    ]
}

/// The multiplier of the first tier whose minimum the amount reaches, or the base multiplier.
pub open spec fn multiplier_for(tiers: Seq<MultiplierTier>, amount: i128) -> u32
    decreases tiers.len(),
{
    if tiers.len() == 0 {
        BASE_MULTIPLIER
    } else if amount >= tiers[0].min_stake {
        tiers[0].multiplier
    } else {
        multiplier_for(tiers.drop_first(), amount)
    }
}

/// What is wrong with the tier at position `i`, judged against its predecessor.
pub open spec fn tier_fault(tiers: Seq<MultiplierTier>, i: int) -> Option<StakeVaultError> {
    if tiers[i].min_stake <= 0 {
        Some(StakeVaultError::TierMinStakeNotPositive)
    } else if tiers[i].multiplier == 0 {
        Some(StakeVaultError::TierMultiplierZero)
    } else if i > 0 && tiers[i].min_stake >= tiers[i - 1].min_stake {
        Some(StakeVaultError::TiersNotDescending)
    } else {
        None
    }
}

/// The fault of the first faulty tier at or after position `from`.
pub open spec fn first_tier_fault(tiers: Seq<MultiplierTier>, from: int) -> Option<
    StakeVaultError,
>
    decreases tiers.len() - from,
{
    if from < 0 || from >= tiers.len() {
        None
    } else {
        match tier_fault(tiers, from) {
            Some(e) => Some(e),
            None => first_tier_fault(tiers, from + 1),
        }
    }
}

/// Positive minimums in strictly descending order, each with a non-zero multiplier.
pub open spec fn valid_tiers(tiers: Seq<MultiplierTier>) -> bool {
    &&& forall|i: int| 0 <= i < tiers.len() ==> #[trigger] tiers[i].min_stake > 0
    &&& forall|i: int| 0 <= i < tiers.len() ==> #[trigger] tiers[i].multiplier != 0
    &&& forall|i: int, j: int|
        0 <= i < j < tiers.len() ==> #[trigger] tiers[i].min_stake > #[trigger] tiers[j].min_stake
}

impl StakeVault {
    /// Records the admin and the staking token and installs the default tiers.
    pub fn initialize(&mut self, admin: AccountId, token: AccountId) -> (r: Result<
        StakeVaultInitialized,
        StakeVaultError,
    >)
        ensures
            old(self).admin is Some ==> r == Err::<StakeVaultInitialized, _>(
                StakeVaultError::AlreadyInitialized,
            ) && *final(self) == *old(self),
            old(self).admin is None ==> r == Ok::<_, StakeVaultError>(
                StakeVaultInitialized { admin, token },
            ) && final(self).admin == Some(admin) && final(self).token == Some(token)
                && final(self).tiers is Some && final(self).tiers_in_force() == default_tier_seq()
                && final(self).stakes == old(self).stakes,
    {
        if self.admin.is_some() {
            return Err(StakeVaultError::AlreadyInitialized);
        }
        self.admin = Some(admin);
        self.token = Some(token);
        self.tiers = Some(default_multiplier_tiers());
        Ok(StakeVaultInitialized { admin, token })
    }

    /// Replaces the tiers; only the admin may, and only with a valid list.
    pub fn set_multiplier_tiers(&mut self, admin: AccountId, tiers: Vec<MultiplierTier>) -> (r:
        Result<MultiplierTiersUpdated, StakeVaultError>)
        ensures
            old(self).admin is None ==> r == Err::<MultiplierTiersUpdated, _>(
                StakeVaultError::NotInitialized,
            ),
            old(self).admin matches Some(a) && a != admin ==> r == Err::<
                MultiplierTiersUpdated,
                _,
            >(StakeVaultError::Unauthorized),
            old(self).admin == Some(admin) && first_tier_fault(tiers@, 0) is Some ==> r == Err::<
                MultiplierTiersUpdated,
                _,
            >(first_tier_fault(tiers@, 0).unwrap()),
            old(self).admin == Some(admin) && first_tier_fault(tiers@, 0) is None ==> {
                &&& r is Ok
                &&& r->Ok_0.admin == admin
                &&& r->Ok_0.tiers@ == tiers@
                &&& final(self).tiers is Some
                &&& final(self).tiers_in_force() == tiers@
            },
            r is Err ==> *final(self) == *old(self),
            final(self).admin == old(self).admin,
            final(self).token == old(self).token,
            final(self).stakes == old(self).stakes,
    {
        match self.admin {
            None => {
                return Err(StakeVaultError::NotInitialized);
            },
            Some(stored) => {
                if !admin.same_as(&stored) {
                    return Err(StakeVaultError::Unauthorized);
                }
            },
        }
        validate_tiers(&tiers)?;
        let copy = copy_tiers(&tiers);
        self.tiers = Some(tiers);
        Ok(MultiplierTiersUpdated { admin, tiers: copy })
    }

    /// The tiers in force.
    pub fn get_multiplier_tiers(&self) -> (r: Vec<MultiplierTier>)
        ensures
            r@ == self.tiers_in_force(),
    {
        match &self.tiers {
            Some(t) => copy_tiers(t),
            None => default_multiplier_tiers(),
        }
    }

    /// Locks more of the user's tokens and restarts the lock period at `now`.
    pub fn stake(&mut self, user: AccountId, amount: i128, now: u64) -> (r: Result<
        StakeDeposit,
        StakeVaultError,
    >)
        ensures
            amount <= 0 ==> r == Err::<StakeDeposit, _>(StakeVaultError::AmountNotPositive),
            amount > 0 && old(self).token is None ==> r == Err::<StakeDeposit, _>(
                StakeVaultError::NotInitialized,
            ),
            amount > 0 && old(self).token is Some && old(self).staked_amount(user) + amount
                > i128::MAX ==> r == Err::<StakeDeposit, _>(StakeVaultError::Overflow),
            amount > 0 && old(self).token is Some && old(self).staked_amount(user) + amount
                <= i128::MAX ==> {
                let token = old(self).token.unwrap();
                let total = (old(self).staked_amount(user) + amount) as i128;
                &&& r == Ok::<_, StakeVaultError>(
                    StakeDeposit {
                        transfer: Transfer {
                            token,
                            from: Party::Account(user),
                            to: Party::ThisContract,
                            amount,
                        },
                        event: Staked { user, amount, total_staked: total, lock_timestamp: now },
                    },
                )
                &&& final(self).stakes@ == old(self).stakes@.insert(
                    user,
                    StakeInfo { amount: total, lock_timestamp: now },
                )
            },
            r is Err ==> *final(self) == *old(self),
            final(self).admin == old(self).admin,
            final(self).token == old(self).token,
            final(self).tiers == old(self).tiers,
    {
        if amount <= 0 {
            return Err(StakeVaultError::AmountNotPositive);
        }
        let token = match self.token {
            Some(t) => t,
            None => {
                return Err(StakeVaultError::NotInitialized);
            },
        };
        let current: i128 = match self.stakes.get(&user) {
            Some(info) => info.amount,
            None => 0,
        };
        let total = match current.checked_add(amount) {
            Some(t) => t,
            None => {
                return Err(StakeVaultError::Overflow);
            },
        };
        self.stakes.insert(user, StakeInfo { amount: total, lock_timestamp: now });
        Ok(
            StakeDeposit {
                transfer: Transfer {
                    token,
                    from: Party::Account(user),
                    to: Party::ThisContract,
                    amount,
                },
                event: Staked { user, amount, total_staked: total, lock_timestamp: now },
            },
        )
    }

    /// Releases the user's whole stake once the lock period has passed.
    pub fn unstake(&mut self, user: AccountId, now: u64) -> (r: Result<
        StakeWithdrawal,
        StakeVaultError,
    >)
        ensures
            !old(self).stakes@.contains_key(user) ==> r == Err::<StakeWithdrawal, _>(
                StakeVaultError::NoStakeFound,
            ),
            old(self).stakes@.contains_key(user) && old(self).stakes@[user].lock_timestamp
                + LOCK_PERIOD > u64::MAX ==> r == Err::<StakeWithdrawal, _>(
                StakeVaultError::Overflow,
            ),
            old(self).stakes@.contains_key(user) && old(self).stakes@[user].lock_timestamp
                + LOCK_PERIOD <= u64::MAX && now < old(self).stakes@[user].lock_timestamp
                + LOCK_PERIOD ==> r == Err::<StakeWithdrawal, _>(
                StakeVaultError::LockPeriodActive,
            ),
            old(self).stakes@.contains_key(user) && old(self).stakes@[user].lock_timestamp
                + LOCK_PERIOD <= now && old(self).token is None ==> r == Err::<
                StakeWithdrawal,
                _,
            >(StakeVaultError::NotInitialized),
            old(self).stakes@.contains_key(user) && old(self).stakes@[user].lock_timestamp
                + LOCK_PERIOD <= now && old(self).token is Some ==> {
                let token = old(self).token.unwrap();
                let amount = old(self).stakes@[user].amount;
                &&& r == Ok::<_, StakeVaultError>(
                    StakeWithdrawal {
                        transfer: Transfer {
                            token,
                            from: Party::ThisContract,
                            to: Party::Account(user),
                            amount,
                        },
                        event: Unstaked { user, amount },
                    },
                )
                &&& final(self).stakes@ == old(self).stakes@.remove(user)
            },
            r is Err ==> *final(self) == *old(self),
            final(self).admin == old(self).admin,
            final(self).token == old(self).token,
            final(self).tiers == old(self).tiers,
    {
        let info = match self.stakes.get(&user) {
            Some(i) => *i,
            None => {
                return Err(StakeVaultError::NoStakeFound);
            },
        };
        let unlock = match info.lock_timestamp.checked_add(LOCK_PERIOD) {
            Some(t) => t,
            None => {
                return Err(StakeVaultError::Overflow);
            },
        };
        if now < unlock {
            return Err(StakeVaultError::LockPeriodActive);
        }
        let token = match self.token {
            Some(t) => t,
            None => {
                return Err(StakeVaultError::NotInitialized);
            },
        };
        self.stakes.remove(&user);
        Ok(
            StakeWithdrawal {
                transfer: Transfer {
                    token,
                    from: Party::ThisContract,
                    to: Party::Account(user),
                    amount: info.amount,
                },
                event: Unstaked { user, amount: info.amount },
            },
        )
    }

    /// The multiplier, in hundredths, that the user's stake earns.
    pub fn get_multiplier(&self, user: AccountId) -> (r: u32)
        ensures
            r == multiplier_for(self.tiers_in_force(), self.staked_amount(user)),
    {
        let amount: i128 = match self.stakes.get(&user) {
            Some(info) => info.amount,
            None => 0,
        };
        match &self.tiers {
            Some(t) => select_multiplier(t, amount),
            None => select_multiplier(&default_multiplier_tiers(), amount),
        }
    }

    /// Checks that the caller is the admin before a code upgrade.
    pub fn upgrade_contract(&self, admin: AccountId, new_wasm_hash: [u8; 32]) -> (r: Result<
        ContractUpgraded,
        StakeVaultError,
    >)
        ensures
            self.admin is None ==> r == Err::<ContractUpgraded, _>(StakeVaultError::NotInitialized),
            self.admin matches Some(a) && a != admin ==> r == Err::<ContractUpgraded, _>(
                StakeVaultError::Unauthorized,
            ),
            self.admin == Some(admin) ==> r == Ok::<_, StakeVaultError>(
                ContractUpgraded { admin, new_wasm_hash },
            ),
    {
        match self.admin {
            None => Err(StakeVaultError::NotInitialized),
            Some(stored) => {
                if admin.same_as(&stored) {
                    Ok(ContractUpgraded { admin, new_wasm_hash })
                } else {
                    Err(StakeVaultError::Unauthorized)
                }
            },
        }
    }

    /// A vault that has not been initialized.
    pub fn new() -> (v: StakeVault)
        ensures
            v.admin is None,
            v.token is None,
            v.tiers is None,
            v.stakes@ == Map::<AccountId, StakeInfo>::empty(),
    {
        StakeVault { admin: None, token: None, tiers: None, stakes: Table::new() }
    }

    /// The tiers in force.
    pub open spec fn tiers_in_force(&self) -> Seq<MultiplierTier> {
        match self.tiers {
            Some(t) => t@,
            None => default_tier_seq(),
        }
    }

    /// The amount staked by the user, zero when there is no stake.
    pub open spec fn staked_amount(&self, user: AccountId) -> i128 {
        if self.stakes@.contains_key(user) {
            self.stakes@[user].amount
        } else {
            0
        }
    }
}

/// The tiers that apply before any are configured.
pub fn default_multiplier_tiers() -> (r: Vec<MultiplierTier>)
    ensures
        r@ == default_tier_seq(),
{
    let r = vec![
        MultiplierTier { min_stake: 500, multiplier: 200 },
        MultiplierTier { min_stake: 100, multiplier: 120 },
    ];
    assert(r@ =~= default_tier_seq());
    r
}

fn copy_tiers(tiers: &Vec<MultiplierTier>) -> (r: Vec<MultiplierTier>)
    ensures
        r@ == tiers@,
{
    let mut r: Vec<MultiplierTier> = Vec::new();
    let mut i: usize = 0;
    while i < tiers.len()
        invariant
            0 <= i <= tiers.len(),
            r@ == tiers@.take(i as int),
        decreases tiers.len() - i,
    {
        r.push(tiers[i]);
        i = i + 1;
        assert(r@ =~= tiers@.take(i as int));
    }
    assert(tiers@.take(i as int) =~= tiers@);
    r
}

/// The multiplier of the first tier whose minimum the amount reaches, or the base multiplier.
pub fn select_multiplier(tiers: &Vec<MultiplierTier>, amount: i128) -> (r: u32)
    ensures
        r == multiplier_for(tiers@, amount),
{
    let mut i: usize = 0;
    assert(tiers@.skip(0) =~= tiers@);
    while i < tiers.len()
        invariant
            0 <= i <= tiers.len(),
            multiplier_for(tiers@, amount) == multiplier_for(tiers@.skip(i as int), amount),
        decreases tiers.len() - i,
    {
        assert(tiers@.skip(i as int)[0] == tiers@[i as int]);
        if amount >= tiers[i].min_stake {
            return tiers[i].multiplier;
        }
        assert(tiers@.skip(i as int).drop_first() =~= tiers@.skip(i + 1));
        i = i + 1;
    }
    BASE_MULTIPLIER
}

/// Checks the tiers in order and reports the first fault found.
pub fn validate_tiers(tiers: &Vec<MultiplierTier>) -> (r: Result<(), StakeVaultError>)
    ensures
        r == (match first_tier_fault(tiers@, 0) {
            Some(e) => Err(e),
            None => Ok(()),
        }),
{
    let mut prev_min_stake: Option<i128> = None;
    let mut i: usize = 0;
    while i < tiers.len()
        invariant
            0 <= i <= tiers.len(),
            first_tier_fault(tiers@, 0) == first_tier_fault(tiers@, i as int),
            prev_min_stake == (if i == 0 {
                None
            } else {
                Some(tiers@[i - 1].min_stake)
            }),
        decreases tiers.len() - i,
    {
        let tier = tiers[i];
        if tier.min_stake <= 0 {
            return Err(StakeVaultError::TierMinStakeNotPositive);
        }
        if tier.multiplier == 0 {
            return Err(StakeVaultError::TierMultiplierZero);
        }
        if let Some(prev) = prev_min_stake {
            if tier.min_stake >= prev {
                return Err(StakeVaultError::TiersNotDescending);
            }
        }
        prev_min_stake = Some(tier.min_stake);
        i = i + 1;
    }
    Ok(())
}

/// A tier list passes validation exactly when it is valid.
pub proof fn lemma_validation_accepts_exactly_valid_tiers(tiers: Seq<MultiplierTier>)
    ensures
        first_tier_fault(tiers, 0) is None <==> valid_tiers(tiers),
{
    lemma_no_fault_from(tiers, 0);
    if first_tier_fault(tiers, 0) is None {
        assert forall|i: int, j: int| 0 <= i < j < tiers.len() implies #[trigger] tiers[i].min_stake
            > #[trigger] tiers[j].min_stake by {
            lemma_descending(tiers, i, j);
        }
        assert forall|i: int| 0 <= i < tiers.len() implies #[trigger] tiers[i].min_stake > 0 by {
            assert(tier_fault(tiers, i) is None);
        }
        assert forall|i: int| 0 <= i < tiers.len() implies #[trigger] tiers[i].multiplier != 0 by {
            assert(tier_fault(tiers, i) is None);
        }
        assert(valid_tiers(tiers));
    }
    if valid_tiers(tiers) {
        assert forall|i: int| 0 <= i < tiers.len() implies #[trigger] tier_fault(tiers, i) is None by {
            assert(tiers[i].min_stake > 0);
            assert(tiers[i].multiplier != 0);
            if i > 0 {
                assert(tiers[i - 1].min_stake > tiers[i].min_stake);
            }
        }
        assert(first_tier_fault(tiers, 0) is None);
    }
}

proof fn lemma_no_fault_from(tiers: Seq<MultiplierTier>, from: int)
    requires
        0 <= from <= tiers.len(),
    ensures
        first_tier_fault(tiers, from) is None <==> (forall|i: int|
            from <= i < tiers.len() ==> #[trigger] tier_fault(tiers, i) is None),
    decreases tiers.len() - from,
{
    if from < tiers.len() {
        lemma_no_fault_from(tiers, from + 1);
        assert forall|i: int| from <= i < tiers.len() && first_tier_fault(tiers, from) is None
            implies #[trigger] tier_fault(tiers, i) is None by {
            if i > from {
                assert(tier_fault(tiers, i) is None);
            }
        }
    }
}

proof fn lemma_descending(tiers: Seq<MultiplierTier>, i: int, j: int)
    requires
        0 <= i < j < tiers.len(),
        forall|k: int| 0 <= k < tiers.len() ==> #[trigger] tier_fault(tiers, k) is None,
    ensures
        tiers[i].min_stake > tiers[j].min_stake,
    decreases j - i,
{
    assert(tier_fault(tiers, j) is None);
    if j > i + 1 {
        lemma_descending(tiers, i, j - 1);
    }
}

} // verus!

verus! {

/// With valid tiers, a stake earns the multiplier of the tier whose bracket it falls in:
/// at least that tier's minimum and below the minimum of the tier before it.
pub proof fn lemma_multiplier_of_bracket(tiers: Seq<MultiplierTier>, amount: i128, i: int)
    requires
        valid_tiers(tiers),
        0 <= i < tiers.len(),
        tiers[i].min_stake <= amount,
        i == 0 || amount < tiers[i - 1].min_stake,
    ensures
        multiplier_for(tiers, amount) == tiers[i].multiplier,
    decreases i,
{
    if i > 0 {
        assert(tiers[0].min_stake >= tiers[i - 1].min_stake) by {
            if i - 1 > 0 {
                assert(tiers[0].min_stake > tiers[i - 1].min_stake);
            }
        }
        let rest = tiers.drop_first();
        assert(valid_tiers(rest)) by {
            assert forall|a: int, b: int| 0 <= a < b < rest.len() implies #[trigger] rest[a].min_stake
                > #[trigger] rest[b].min_stake by {
                assert(tiers[a + 1].min_stake > tiers[b + 1].min_stake);
            }
            assert forall|a: int| 0 <= a < rest.len() implies #[trigger] rest[a].min_stake > 0 by {
                assert(tiers[a + 1].min_stake > 0);
            }
            assert forall|a: int| 0 <= a < rest.len() implies #[trigger] rest[a].multiplier != 0 by {
                assert(tiers[a + 1].multiplier != 0);
            }
        }
        lemma_multiplier_of_bracket(rest, amount, i - 1);
    }
}

/// A stake below every tier's minimum earns the base multiplier.
pub proof fn lemma_multiplier_below_all_tiers(tiers: Seq<MultiplierTier>, amount: i128)
    requires
        forall|i: int| 0 <= i < tiers.len() ==> amount < #[trigger] tiers[i].min_stake,
    ensures
        multiplier_for(tiers, amount) == BASE_MULTIPLIER,
    decreases tiers.len(),
{
    if tiers.len() > 0 {
        let rest = tiers.drop_first();
        assert forall|i: int| 0 <= i < rest.len() implies amount < #[trigger] rest[i].min_stake by {
            assert(amount < tiers[i + 1].min_stake);
        }
        lemma_multiplier_below_all_tiers(rest, amount);
    }
}

/// A stake followed, after the lock period, by an unstake hands back everything staked,
/// and leaves no stake behind.
pub proof fn lemma_stake_then_unstake_returns_total(
    before: StakeVault,
    mid: StakeVault,
    after: StakeVault,
    user: AccountId,
    amount: i128,
    total: i128,
    lock: u64,
)
    requires
        mid.stakes@ == before.stakes@.insert(
            user,
            StakeInfo { amount: total, lock_timestamp: lock },
        ),
        total == before.staked_amount(user) + amount,
        after.stakes@ == mid.stakes@.remove(user),
    ensures
        mid.staked_amount(user) == before.staked_amount(user) + amount,
        after.staked_amount(user) == 0,
        !after.stakes@.contains_key(user),
        forall|other: AccountId| other != user ==> after.stakes@.contains_key(other)
            == before.stakes@.contains_key(other),
{
}

/// The multiplier is that of the first tier, in list order, whose minimum the stake
/// reaches.
pub proof fn lemma_multiplier_first_match(tiers: Seq<MultiplierTier>, amount: i128, i: int)
    requires
        0 <= i < tiers.len(),
        amount >= tiers[i].min_stake,
        forall|j: int| 0 <= j < i ==> amount < #[trigger] tiers[j].min_stake,
    ensures
        multiplier_for(tiers, amount) == tiers[i].multiplier,
    decreases i,
{
    if i > 0 {
        let rest = tiers.drop_first();
        assert(amount < tiers[0].min_stake);
        assert forall|j: int| 0 <= j < i - 1 implies amount < #[trigger] rest[j].min_stake by {
            assert(amount < tiers[j + 1].min_stake);
        }
        lemma_multiplier_first_match(rest, amount, i - 1);
    }
}

} // verus!
