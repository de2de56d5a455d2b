use vstd::prelude::*;

use crate::account::AccountId;
use crate::ledger::{Party, Transfer};
use crate::table::Table;

verus! {

/// Why a reward pool operation was refused.
#[derive(Clone, Copy, Debug, PartialEq, Eq)]
pub enum RewardPoolError {
    AlreadyInitialized,
    NotInitialized,
    Unauthorized,
    Paused,
    AmountNotPositive,
    UnauthorizedSpender,
}

impl RewardPoolError {
    /// The text with which the contract aborts.
    pub fn message(&self) -> (r: &'static str)
        ensures
            r@ == self.message_text(),
    {
        match self {
            RewardPoolError::AlreadyInitialized => "Already initialized",
            RewardPoolError::NotInitialized => "Not initialized",
            RewardPoolError::Unauthorized => "Unauthorized",
            RewardPoolError::Paused => "Contract is paused",
            RewardPoolError::AmountNotPositive => "Amount must be positive",
            RewardPoolError::UnauthorizedSpender => "Caller is not an authorized spender",
        }
    }

    /// The text with which the contract aborts, as characters.
    pub open spec fn message_text(&self) -> Seq<char> {
        match self {
            RewardPoolError::AlreadyInitialized => "Already initialized"@,
            RewardPoolError::NotInitialized => "Not initialized"@,
            RewardPoolError::Unauthorized => "Unauthorized"@,
            RewardPoolError::Paused => "Contract is paused"@,
            RewardPoolError::AmountNotPositive => "Amount must be positive"@,
            RewardPoolError::UnauthorizedSpender => "Caller is not an authorized spender"@,
        }
    }
}

#[derive(Clone, Copy, Debug, PartialEq, Eq)]
pub struct PoolInitialized {
    pub admin: AccountId,
    pub token: AccountId,
}

#[derive(Clone, Copy, Debug, PartialEq, Eq)]
pub struct SpenderAdded {
    pub spender: AccountId,
}

#[derive(Clone, Copy, Debug, PartialEq, Eq)]
pub struct SpenderRemoved {
    pub spender: AccountId,
}

#[derive(Clone, Copy, Debug, PartialEq, Eq)]
pub struct RewardDistributed {
    pub caller: AccountId,
    pub learner: AccountId,
    pub amount: i128,
}

#[derive(Clone, Copy, Debug, PartialEq, Eq)]
pub struct PoolFunded {
    pub donor: AccountId,
    pub amount: i128,
}

#[derive(Clone, Copy, Debug, PartialEq, Eq)]
pub struct EmergencySweep {
    pub admin: AccountId,
    pub recovery_wallet: AccountId,
    pub amount: i128,
}

#[derive(Clone, Copy, Debug, PartialEq, Eq)]
pub struct ContractUpgraded {
    pub admin: AccountId,
    pub new_wasm_hash: [u8; 32],
}

/// A token movement out of or into the pool together with its event.
#[derive(Clone, Copy, Debug, PartialEq, Eq)]
pub struct PoolMovement<E> {
    pub transfer: Transfer,
    pub event: E,
}

/// The stored state of the reward pool.
pub struct RewardPool {
    pub admin: Option<AccountId>,
    pub token: Option<AccountId>,
    /// Whitelist entries; a spender is approved while its entry is `true`.
    pub spenders: Table<AccountId, bool>,
    pub is_paused: Option<bool>,
}

impl RewardPool {
    /// A pool that has not been initialized.
    pub fn new() -> (p: RewardPool)
        ensures
            p.admin is None,
            p.token is None,
            p.is_paused is None,
            p.spenders@ == Map::<AccountId, bool>::empty(),
    {
        RewardPool { admin: None, token: None, spenders: Table::new(), is_paused: None }
    }

    /// Records the admin and the reward token.
    pub fn initialize(&mut self, admin: AccountId, token: AccountId) -> (r: Result<
        PoolInitialized,
        RewardPoolError,
    >)
        ensures
            old(self).admin is Some ==> r == Err::<PoolInitialized, _>(
                RewardPoolError::AlreadyInitialized,
            ) && *final(self) == *old(self),
            old(self).admin is None ==> r == Ok::<_, RewardPoolError>(
                PoolInitialized { admin, token },
            ) && final(self).admin == Some(admin) && final(self).token == Some(token)
                && final(self).spenders == old(self).spenders && final(self).is_paused == old(
                self,
            ).is_paused,
    {
        if self.admin.is_some() {
            return Err(RewardPoolError::AlreadyInitialized);
        }
        self.admin = Some(admin);
        self.token = Some(token);
        Ok(PoolInitialized { admin, token })
    }

    /// Whitelists a spender; admin only.
    pub fn add_approved_spender(&mut self, admin: AccountId, spender: AccountId) -> (r: Result<
        SpenderAdded,
        RewardPoolError,
    >)
        ensures
            old(self).admin_check(admin) is Some ==> r == Err::<SpenderAdded, _>(
                old(self).admin_check(admin).unwrap(),
            ) && *final(self) == *old(self),
            old(self).admin_check(admin) is None ==> r == Ok::<_, RewardPoolError>(
                SpenderAdded { spender },
            ) && final(self).spenders@ == old(self).spenders@.insert(spender, true),
            final(self).admin == old(self).admin,
            final(self).token == old(self).token,
            final(self).is_paused == old(self).is_paused,
    {
        self.check_admin(admin)?;
        self.spenders.insert(spender, true);
        Ok(SpenderAdded { spender })
    }

    /// Takes a spender off the whitelist; admin only.
    pub fn remove_approved_spender(&mut self, admin: AccountId, spender: AccountId) -> (r: Result<
        SpenderRemoved,
        RewardPoolError,
    >)
        ensures
            old(self).admin_check(admin) is Some ==> r == Err::<SpenderRemoved, _>(
                old(self).admin_check(admin).unwrap(),
            ) && *final(self) == *old(self),
            old(self).admin_check(admin) is None ==> r == Ok::<_, RewardPoolError>(
                SpenderRemoved { spender },
            ) && final(self).spenders@ == old(self).spenders@.insert(spender, false),
            final(self).admin == old(self).admin,
            final(self).token == old(self).token,
            final(self).is_paused == old(self).is_paused,
    {
        self.check_admin(admin)?;
        self.spenders.insert(spender, false);
        Ok(SpenderRemoved { spender })
    }

    /// Halts or resumes distributions; admin only.
    pub fn set_pause(&mut self, admin: AccountId, status: bool) -> (r: Result<(), RewardPoolError>)
        ensures
            old(self).admin_check(admin) is Some ==> r == Err::<(), _>(
                old(self).admin_check(admin).unwrap(),
            ) && *final(self) == *old(self),
            old(self).admin_check(admin) is None ==> r == Ok::<(), RewardPoolError>(())
                && final(self).is_paused == Some(status),
            final(self).admin == old(self).admin,
            final(self).token == old(self).token,
            final(self).spenders == old(self).spenders,
    {
        self.check_admin(admin)?;
        self.is_paused = Some(status);
        Ok(())
    }

    /// Pays a reward out of the pool on behalf of a whitelisted spender.
    pub fn distribute_reward(&self, caller: AccountId, learner: AccountId, amount: i128) -> (r:
        Result<PoolMovement<RewardDistributed>, RewardPoolError>)
        ensures
            self.paused() ==> r == Err::<PoolMovement<RewardDistributed>, _>(
                RewardPoolError::Paused,
            ),
            !self.paused() && amount <= 0 ==> r == Err::<PoolMovement<RewardDistributed>, _>(
                RewardPoolError::AmountNotPositive,
            ),
            !self.paused() && amount > 0 && self.token is None ==> r == Err::<
                PoolMovement<RewardDistributed>,
                _,
            >(RewardPoolError::NotInitialized),
            !self.paused() && amount > 0 && self.token is Some && !self.is_approved(caller) ==> r
                == Err::<PoolMovement<RewardDistributed>, _>(
                RewardPoolError::UnauthorizedSpender,
            ),
            !self.paused() && amount > 0 && self.token is Some && self.is_approved(caller) ==> r
                == Ok::<_, RewardPoolError>(
                PoolMovement {
                    transfer: Transfer {
                        token: self.token.unwrap(),
                        from: Party::ThisContract,
                        to: Party::Account(learner),
                        amount,
                    },
                    event: RewardDistributed { caller, learner, amount },
                },
            ),
    {
        let paused = match self.is_paused {
            Some(p) => p,
            None => false,
        };
        if paused {
            return Err(RewardPoolError::Paused);
        }
        if amount <= 0 {
            return Err(RewardPoolError::AmountNotPositive);
        }
        let token = match self.token {
            Some(t) => t,
            None => {
                return Err(RewardPoolError::NotInitialized);
            },
        };
        let approved = match self.spenders.get(&caller) {
            Some(b) => *b,
            None => false,
        };
        if !approved {
            return Err(RewardPoolError::UnauthorizedSpender);
        }
        Ok(
            PoolMovement {
                transfer: Transfer {
                    token,
                    from: Party::ThisContract,
                    to: Party::Account(learner),
                    amount,
                },
                event: RewardDistributed { caller, learner, amount },
            },
        )
    }

    /// Moves a donation into the pool.
    pub fn fund_pool(&self, donor: AccountId, amount: i128) -> (r: Result<
        PoolMovement<PoolFunded>,
        RewardPoolError,
    >)
        ensures
            self.token is None ==> r == Err::<PoolMovement<PoolFunded>, _>(
                RewardPoolError::NotInitialized,
            ),
            self.token is Some ==> r == Ok::<_, RewardPoolError>(
                PoolMovement {
                    transfer: Transfer {
                        token: self.token.unwrap(),
                        from: Party::Account(donor),
                        to: Party::ThisContract,
                        amount,
                    },
                    event: PoolFunded { donor, amount },
                },
            ),
    {
        match self.token {
            None => Err(RewardPoolError::NotInitialized),
            Some(token) => Ok(
                PoolMovement {
                    transfer: Transfer {
                        token,
                        from: Party::Account(donor),
                        to: Party::ThisContract,
                        amount,
                    },
                    event: PoolFunded { donor, amount },
                },
            ),
        }
    }

    /// Moves the pool's whole `balance` to a recovery wallet; admin only.
    pub fn emergency_sweep(&self, admin: AccountId, recovery_wallet: AccountId, balance: i128) -> (r:
        Result<PoolMovement<EmergencySweep>, RewardPoolError>)
        ensures
            self.admin_check(admin) is Some ==> r == Err::<PoolMovement<EmergencySweep>, _>(
                self.admin_check(admin).unwrap(),
            ),
            self.admin_check(admin) is None && self.token is None ==> r == Err::<
                PoolMovement<EmergencySweep>,
                _,
            >(RewardPoolError::NotInitialized),
            self.admin_check(admin) is None && self.token is Some ==> r == Ok::<_, RewardPoolError>(
                PoolMovement {
                    transfer: Transfer {
                        token: self.token.unwrap(),
                        from: Party::ThisContract,
                        to: Party::Account(recovery_wallet),
                        amount: balance,
                    },
                    event: EmergencySweep { admin, recovery_wallet, amount: balance },
                },
            ),
    {
        self.check_admin(admin)?;
        match self.token {
            None => Err(RewardPoolError::NotInitialized),
            Some(token) => Ok(
                PoolMovement {
                    transfer: Transfer {
                        token,
                        from: Party::ThisContract,
                        to: Party::Account(recovery_wallet),
                        amount: balance,
                    },
                    event: EmergencySweep { admin, recovery_wallet, amount: balance },
                },
            ),
        }
    }

    /// Checks that the caller is the admin before a code upgrade.
    pub fn upgrade_contract(&self, admin: AccountId, new_wasm_hash: [u8; 32]) -> (r: Result<
        ContractUpgraded,
        RewardPoolError,
    >)
        ensures
            self.admin_check(admin) is Some ==> r == Err::<ContractUpgraded, _>(
                self.admin_check(admin).unwrap(),
            ),
            self.admin_check(admin) is None ==> r == Ok::<_, RewardPoolError>(
                ContractUpgraded { admin, new_wasm_hash },
            ),
    {
        self.check_admin(admin)?;
        Ok(ContractUpgraded { admin, new_wasm_hash })
    }

    /// Whether the spender may draw rewards from the pool.
    pub open spec fn is_approved(&self, spender: AccountId) -> bool {
        self.spenders@.contains_key(spender) && self.spenders@[spender]
    }

    /// Whether distributions are halted.
    pub open spec fn paused(&self) -> bool {
        self.is_paused == Some(true)
    }

    /// The admin check shared by the administrative operations.
    pub open spec fn admin_check(&self, admin: AccountId) -> Option<RewardPoolError> {
        match self.admin {
            None => Some(RewardPoolError::NotInitialized),
            Some(a) => if a == admin {
                None
            } else {
                Some(RewardPoolError::Unauthorized)
            },
        }
    }

    fn check_admin(&self, admin: AccountId) -> (r: Result<(), RewardPoolError>)
        ensures
            r == (match self.admin_check(admin) {
                Some(e) => Err(e),
                None => Ok(()),
            }),
    {
        match self.admin {
            None => Err(RewardPoolError::NotInitialized),
            Some(stored) => if admin.same_as(&stored) {
                Ok(())
            } else {
                Err(RewardPoolError::Unauthorized)
            },
        }
    }
}

/// Whitelisting a spender approves it; delisting it withdraws the approval; the
/// other spenders keep their standing either way.
pub proof fn lemma_whitelist_updates(
    before: RewardPool,
    after: RewardPool,
    spender: AccountId,
    approve: bool,
)
    requires
        after.spenders@ == before.spenders@.insert(spender, approve),
    ensures
        after.is_approved(spender) == approve,
        forall|other: AccountId| other != spender ==> after.is_approved(other)
            == before.is_approved(other),
{
}

} // verus!
