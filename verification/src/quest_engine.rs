use vstd::prelude::*;

use crate::account::AccountId;
use crate::ledger::{Party, Transfer};
use crate::table::Table;

verus! {

/// Share of a build quest's reward, in percent, that goes to the reward pool as a fee.
pub const FEE_PERCENT: i128 = 15;

/// Multipliers are expressed in hundredths: this value leaves an amount unchanged.
pub const MULTIPLIER_SCALE: i128 = 100;

#[derive(Clone, Copy, Debug, PartialEq, Eq)]
pub enum QuestType {
    Build,
    Explore,
}

/// A quest and its escrow accounting.
#[derive(Clone, Copy, Debug, PartialEq, Eq)]
pub struct Quest {
    pub employer: AccountId,
    pub reward_amount: i128,
    pub quest_type: QuestType,
    pub metadata_hash: [u8; 32],
    pub active: bool,
    pub has_approved_submission: bool,
    /// Escrow deposited for the quest; zero for explore quests, which the pool pays.
    pub total_funded: i128,
    /// Escrow paid out so far: fees, learner payouts and penalties.
    pub consumed_amount: i128,
    /// Escrow returned to the employer.
    pub refunded_amount: i128,
}

/// A summary of a quest's escrow.
#[derive(Clone, Copy, Debug, PartialEq, Eq)]
pub struct QuestBudget {
    pub total_funded: i128,
    pub consumed_amount: i128,
    pub refunded_amount: i128,
    pub remaining: i128,
}

#[derive(Clone, Copy, Debug, PartialEq, Eq)]
pub enum SubmissionStatus {
    Pending,
    Approved,
    Rejected,
}

#[derive(Clone, Copy, Debug, PartialEq, Eq)]
pub struct Submission {
    pub proof_hash: [u8; 32],
    pub status: SubmissionStatus,
}

impl Quest {
    /// Escrow still available for future payouts or refunds.
    pub fn remaining_budget(&self) -> (r: i128)
        requires
            i128::MIN <= self.total_funded - self.consumed_amount - self.refunded_amount
                <= i128::MAX,
            i128::MIN <= self.total_funded - self.consumed_amount <= i128::MAX,
        ensures
            r == self.total_funded - self.consumed_amount - self.refunded_amount,
    {
        self.total_funded - self.consumed_amount - self.refunded_amount
    }
}

/// A quest's escrow not yet paid out or refunded.
pub open spec fn unspent(q: Quest) -> int {
    q.total_funded - q.consumed_amount - q.refunded_amount
}

/// Whether a quest's unspent escrow, and the escrow left before refunds, fit in 128 bits.
pub open spec fn escrow_fits(q: Quest) -> bool {
    &&& i128::MIN <= q.total_funded - q.consumed_amount <= i128::MAX
    &&& i128::MIN <= unspent(q) <= i128::MAX
}

/// What a quest can still spend or return: its unspent escrow, bounded by what the
/// contract holds.
pub open spec fn escrow_available(q: Quest, balance: int) -> int {
    if unspent(q) < balance {
        unspent(q)
    } else {
        balance
    }
}

/// The quest's unspent escrow, or `None` when it does not fit in 128 bits.
pub fn unspent_escrow(q: &Quest) -> (r: Option<i128>)
    ensures
        escrow_fits(*q) ==> r == Some(unspent(*q) as i128),
        !escrow_fits(*q) ==> r is None,
{
    match q.total_funded.checked_sub(q.consumed_amount) {
        Some(left) => left.checked_sub(q.refunded_amount),
        None => None,
    }
}

/// Why a quest engine operation was refused.
#[derive(Clone, Copy, Debug, PartialEq, Eq)]
pub enum QuestError {
    AlreadyInitialized,
    NotInitialized,
    Unauthorized,
    Paused,
    QuestNotFound,
    QuestNotActive,
    NotBuildQuest,
    SubmissionExists,
    NotQuestEmployer,
    SubmissionNotFound,
    NotPending,
    QuestInactive,
    NoBalanceToRefund,
    InsufficientBudget,
    NotExploreQuest,
    AlreadyVerified,
    Overflow,
}

impl QuestError {
    /// The text with which the contract aborts.
    pub fn message(&self) -> (r: &'static str)
        ensures
            r@ == self.message_text(),
    {
        match self {
            QuestError::AlreadyInitialized => "Already initialized",
            QuestError::NotInitialized => "Not initialized",
            QuestError::Unauthorized => "Unauthorized",
            QuestError::Paused => "Contract is paused",
            QuestError::QuestNotFound => "Quest not found",
            QuestError::QuestNotActive => "Quest is not active",
            QuestError::NotBuildQuest => "Only Build quests accept submissions",
            QuestError::SubmissionExists => "Submission already exists",
            QuestError::NotQuestEmployer => "Only the quest employer can review submissions",
            QuestError::SubmissionNotFound => "Submission not found",
            QuestError::NotPending => "Submission is not pending review",
            QuestError::QuestInactive => "Quest already inactive",
            QuestError::NoBalanceToRefund => "No unspent balance to refund",
            QuestError::InsufficientBudget => "Insufficient quest budget",
            QuestError::NotExploreQuest => "Not an Explore quest",
            QuestError::AlreadyVerified => "Learner already verified for this quest",
            QuestError::Overflow => "Arithmetic overflow",
        }
    }

    /// The text with which the contract aborts, as characters.
    pub open spec fn message_text(&self) -> Seq<char> {
        match self {
            QuestError::AlreadyInitialized => "Already initialized"@,
            QuestError::NotInitialized => "Not initialized"@,
            QuestError::Unauthorized => "Unauthorized"@,
            QuestError::Paused => "Contract is paused"@,
            QuestError::QuestNotFound => "Quest not found"@,
            QuestError::QuestNotActive => "Quest is not active"@,
            QuestError::NotBuildQuest => "Only Build quests accept submissions"@,
            QuestError::SubmissionExists => "Submission already exists"@,
            QuestError::NotQuestEmployer => "Only the quest employer can review submissions"@,
            QuestError::SubmissionNotFound => "Submission not found"@,
            QuestError::NotPending => "Submission is not pending review"@,
            QuestError::QuestInactive => "Quest already inactive"@,
            QuestError::NoBalanceToRefund => "No unspent balance to refund"@,
            QuestError::InsufficientBudget => "Insufficient quest budget"@,
            QuestError::NotExploreQuest => "Not an Explore quest"@,
            QuestError::AlreadyVerified => "Learner already verified for this quest"@,
            QuestError::Overflow => "Arithmetic overflow"@,
        }
    }
}

#[derive(Clone, Copy, Debug, PartialEq, Eq)]
pub struct QuestCreated {
    pub employer: AccountId,
    pub quest_id: u32,
    pub reward_amount: i128,
}

#[derive(Clone, Copy, Debug, PartialEq, Eq)]
pub struct ProofSubmitted {
    pub learner: AccountId,
    pub quest_id: u32,
    pub proof_hash: [u8; 32],
}

#[derive(Clone, Copy, Debug, PartialEq, Eq)]
pub struct SubmissionReviewed {
    pub employer: AccountId,
    pub learner: AccountId,
    pub quest_id: u32,
    pub approved: bool,
}

#[derive(Clone, Copy, Debug, PartialEq, Eq)]
pub struct QuestRefunded {
    pub employer: AccountId,
    pub quest_id: u32,
    pub amount: i128,
}

#[derive(Clone, Copy, Debug, PartialEq, Eq)]
pub struct BatchReviewed {
    pub employer: AccountId,
    pub quest_id: u32,
    pub approved_count: u32,
}

#[derive(Clone, Copy, Debug, PartialEq, Eq)]
pub struct ContractUpgraded {
    pub admin: AccountId,
    pub new_wasm_hash: [u8; 32],
}

#[derive(Clone, Copy, Debug, PartialEq, Eq)]
pub struct ExploreQuestVerified {
    pub admin: AccountId,
    pub learner: AccountId,
    pub quest_id: u32,
    pub amount: i128,
}

/// A payment that an operation asks the host to make.
#[derive(Clone, Copy, Debug, PartialEq, Eq)]
pub enum QuestAction {
    /// A token transfer.
    Pay(Transfer),
    /// A call asking the reward pool to pay the learner on this contract's behalf.
    PoolReward { pool: AccountId, learner: AccountId, amount: i128 },
}

/// The stored state of the quest engine.
pub struct QuestEngineContract {
    pub admin: Option<AccountId>,
    pub token: Option<AccountId>,
    pub reward_pool: Option<AccountId>,
    pub stake_vault: Option<AccountId>,
    /// The number of quests created so far, which is also the latest id.
    pub quest_counter: u32,
    pub is_paused: Option<bool>,
    pub quests: Table<u32, Quest>,
    pub submissions: Table<(AccountId, u32), Submission>,
    /// The (learner, quest) pairs whose explore quest has been verified.
    pub verified: Table<(AccountId, u32), bool>,
}

/// Division rounding towards zero, as integer division does at run time.
pub open spec fn div_trunc(a: int, b: int) -> int {
    if a >= 0 {
        a / b
    } else {
        -((-a) / b)
    }
}

/// The platform fee taken from a reward.
pub open spec fn platform_fee(reward: int) -> int {
    div_trunc(reward * FEE_PERCENT, 100)
}

/// What is left of a reward for the learner once the fee is taken.
pub open spec fn learner_share(reward: int) -> int {
    reward - platform_fee(reward)
}

/// An amount scaled by a multiplier given in hundredths.
pub open spec fn scaled(amount: int, multiplier: int) -> int {
    div_trunc(amount * multiplier, MULTIPLIER_SCALE as int)
}

/// Whether the fee and the scaled share of a reward can be computed in 128 bits.
pub open spec fn payout_fits(reward: int, multiplier: int) -> bool {
    &&& i128::MIN <= reward * FEE_PERCENT <= i128::MAX
    &&& i128::MIN <= learner_share(reward) * multiplier <= i128::MAX
}

/// The platform fee and the learner's share of a reward, or `None` when the computation
/// does not fit in 128 bits.
pub fn split_reward(reward: i128) -> (r: Option<(i128, i128)>)
    ensures
        i128::MIN <= reward * FEE_PERCENT <= i128::MAX ==> r == Some(
            (platform_fee(reward as int) as i128, learner_share(reward as int) as i128),
        ),
        !(i128::MIN <= reward * FEE_PERCENT <= i128::MAX) ==> r is None,
{
    match reward.checked_mul(FEE_PERCENT) {
        None => None,
        Some(product) => {
            let fee = product / 100;
            proof {
                lemma_fee_bounds(reward as int);
            }
            Some((fee, reward - fee))
        },
    }
}

/// An amount scaled by a multiplier in hundredths, or `None` when it does not fit.
pub fn apply_multiplier(amount: i128, multiplier: u32) -> (r: Option<i128>)
    ensures
        i128::MIN <= amount * multiplier <= i128::MAX ==> r == Some(
            scaled(amount as int, multiplier as int) as i128,
        ),
        !(i128::MIN <= amount * multiplier <= i128::MAX) ==> r is None,
{
    match amount.checked_mul(multiplier as i128) {
        None => None,
        Some(product) => Some(product / MULTIPLIER_SCALE),
    }
}

proof fn lemma_fee_bounds(reward: int)
    ensures
        reward >= 0 ==> 0 <= platform_fee(reward) <= reward,
        reward < 0 ==> reward <= platform_fee(reward) <= 0,
{
    if reward >= 0 {
        assert(0 <= (reward * 15) / 100 <= reward) by (nonlinear_arith)
            requires
                reward >= 0,
        ;
    } else {
        assert(0 <= ((-reward) * 15) / 100 <= -reward) by (nonlinear_arith)
            requires
                reward < 0,
        ;
        assert(-(reward * 15) == (-reward) * 15) by (nonlinear_arith);
    }
}

} // verus!

verus! {

impl QuestEngineContract {
    /// A quest engine that has not been initialized.
    pub fn new() -> (q: QuestEngineContract)
        ensures
            q.admin is None,
            q.token is None,
            q.reward_pool is None,
            q.stake_vault is None,
            q.quest_counter == 0,
            q.is_paused is None,
            q.quests@ == Map::<u32, Quest>::empty(),
            q.submissions@ == Map::<(AccountId, u32), Submission>::empty(),
            q.verified@ == Map::<(AccountId, u32), bool>::empty(),
    {
        QuestEngineContract {
            admin: None,
            token: None,
            reward_pool: None,
            stake_vault: None,
            quest_counter: 0,
            is_paused: None,
            quests: Table::new(),
            submissions: Table::new(),
            verified: Table::new(),
        }
    }

    /// Records the admin, the payment token and the partner contracts.
    pub fn initialize(
        &mut self,
        admin: AccountId,
        token: AccountId,
        reward_pool: AccountId,
        stake_vault: AccountId,
    ) -> (r: Result<(), QuestError>)
        ensures
            old(self).token is Some ==> r == Err::<(), _>(QuestError::AlreadyInitialized) && *final(self) == *old(self),
            old(self).token is None ==> {
                &&& r == Ok::<(), QuestError>(())
                &&& final(self).admin == Some(admin)
                &&& final(self).token == Some(token)
                &&& final(self).reward_pool == Some(reward_pool)
                &&& final(self).stake_vault == Some(stake_vault)
                &&& final(self).quest_counter == 0
                &&& final(self).is_paused == old(self).is_paused
                &&& final(self).quests == old(self).quests
                &&& final(self).submissions == old(self).submissions
                &&& final(self).verified == old(self).verified
            },
    {
        if self.token.is_some() {
            return Err(QuestError::AlreadyInitialized);
        }
        self.admin = Some(admin);
        self.token = Some(token);
        self.reward_pool = Some(reward_pool);
        self.stake_vault = Some(stake_vault);
        self.quest_counter = 0;
        Ok(())
    }

    /// Halts or resumes reviews; admin only.
    pub fn set_pause(&mut self, admin: AccountId, status: bool) -> (r: Result<(), QuestError>)
        ensures
            old(self).admin_check(admin) is Some ==> r == Err::<(), _>(
                old(self).admin_check(admin).unwrap(),
            ) && *final(self) == *old(self),
            old(self).admin_check(admin) is None ==> r == Ok::<(), QuestError>(()) && final(self).is_paused == Some(status),
            final(self).admin == old(self).admin,
            final(self).token == old(self).token,
            final(self).reward_pool == old(self).reward_pool,
            final(self).stake_vault == old(self).stake_vault,
            final(self).quest_counter == old(self).quest_counter,
            final(self).quests == old(self).quests,
            final(self).submissions == old(self).submissions,
            final(self).verified == old(self).verified,
    {
        self.check_admin(admin)?;
        self.is_paused = Some(status);
        Ok(())
    }

    /// Locks the employer's reward in escrow and opens a build quest under the next id.
    pub fn create_build_quest(&mut self, employer: AccountId, reward_amount: i128, metadata_hash: [
        u8;
        32
    ]) -> (r: Result<(u32, Transfer, QuestCreated), QuestError>)
        ensures
            old(self).token is None ==> r == Err::<(u32, Transfer, QuestCreated), _>(
                QuestError::NotInitialized,
            ),
            old(self).token is Some && old(self).quest_counter == u32::MAX ==> r == Err::<
                (u32, Transfer, QuestCreated),
                _,
            >(QuestError::Overflow),
            old(self).token is Some && old(self).quest_counter < u32::MAX ==> {
                let id = (old(self).quest_counter + 1) as u32;
                &&& r == Ok::<_, QuestError>(
                    (
                        id,
                        Transfer {
                            token: old(self).token.unwrap(),
                            from: Party::Account(employer),
                            to: Party::ThisContract,
                            amount: reward_amount,
                        },
                        QuestCreated { employer, quest_id: id, reward_amount },
                    ),
                )
                &&& final(self).quest_counter == id
                &&& final(self).quests@ == old(self).quests@.insert(
                    id,
                    Quest {
                        employer,
                        reward_amount,
                        quest_type: QuestType::Build,
                        metadata_hash,
                        active: true,
                        has_approved_submission: false,
                        total_funded: reward_amount,
                        consumed_amount: 0,
                        refunded_amount: 0,
                    },
                )
            },
            r is Err ==> *final(self) == *old(self),
            final(self).same_but_quests(old(self)),
    {
        let token = match self.token {
            Some(t) => t,
            None => {
                return Err(QuestError::NotInitialized);
            },
        };
        if self.quest_counter == u32::MAX {
            return Err(QuestError::Overflow);
        }
        let id = self.quest_counter + 1;
        self.quest_counter = id;
        self.quests.insert(
            id,
            Quest {
                employer,
                reward_amount,
                quest_type: QuestType::Build,
                metadata_hash,
                active: true,
                has_approved_submission: false,
                total_funded: reward_amount,
                consumed_amount: 0,
                refunded_amount: 0,
            },
        );
        Ok(
            (
                id,
                Transfer {
                    token,
                    from: Party::Account(employer),
                    to: Party::ThisContract,
                    amount: reward_amount,
                },
                QuestCreated { employer, quest_id: id, reward_amount },
            ),
        )
    }

    /// Opens an explore quest, paid by the reward pool, under the next id; admin only.
    pub fn create_explore_quest(&mut self, admin: AccountId, reward_amount: i128, metadata_hash: [
        u8;
        32
    ]) -> (r: Result<(u32, QuestCreated), QuestError>)
        ensures
            old(self).admin_check(admin) is Some ==> r == Err::<(u32, QuestCreated), _>(
                old(self).admin_check(admin).unwrap(),
            ),
            old(self).admin_check(admin) is None && old(self).quest_counter == u32::MAX ==> r
                == Err::<(u32, QuestCreated), _>(QuestError::Overflow),
            old(self).admin_check(admin) is None && old(self).quest_counter < u32::MAX ==> {
                let id = (old(self).quest_counter + 1) as u32;
                &&& r == Ok::<_, QuestError>(
                    (id, QuestCreated { employer: admin, quest_id: id, reward_amount }),
                )
                &&& final(self).quest_counter == id
                &&& final(self).quests@ == old(self).quests@.insert(
                    id,
                    Quest {
                        employer: admin,
                        reward_amount,
                        quest_type: QuestType::Explore,
                        metadata_hash,
                        active: true,
                        has_approved_submission: false,
                        total_funded: 0,
                        consumed_amount: 0,
                        refunded_amount: 0,
                    },
                )
            },
            r is Err ==> *final(self) == *old(self),
            final(self).same_but_quests(old(self)),
    {
        self.check_admin(admin)?;
        if self.quest_counter == u32::MAX {
            return Err(QuestError::Overflow);
        }
        let id = self.quest_counter + 1;
        self.quest_counter = id;
        self.quests.insert(
            id,
            Quest {
                employer: admin,
                reward_amount,
                quest_type: QuestType::Explore,
                metadata_hash,
                active: true,
                has_approved_submission: false,
                total_funded: 0,
                consumed_amount: 0,
                refunded_amount: 0,
            },
        );
        Ok((id, QuestCreated { employer: admin, quest_id: id, reward_amount }))
    }

    /// The quest stored under the id.
    pub fn get_quest(&self, quest_id: u32) -> (r: Option<Quest>)
        ensures
            r == (if self.quests@.contains_key(quest_id) {
                Some(self.quests@[quest_id])
            } else {
                None
            }),
    {
        match self.quests.get(&quest_id) {
            Some(q) => Some(*q),
            None => None,
        }
    }

    /// The learner's submission for the quest.
    pub fn get_submission(&self, learner: AccountId, quest_id: u32) -> (r: Option<Submission>)
        ensures
            r == (if self.submissions@.contains_key((learner, quest_id)) {
                Some(self.submissions@[(learner, quest_id)])
            } else {
                None
            }),
    {
        match self.submissions.get(&(learner, quest_id)) {
            Some(s) => Some(*s),
            None => None,
        }
    }

    /// Records a learner's proof for an active build quest, once per learner and quest.
    pub fn submit_proof(&mut self, learner: AccountId, quest_id: u32, proof_hash: [u8; 32]) -> (r:
        Result<ProofSubmitted, QuestError>)
        ensures
            !old(self).quests@.contains_key(quest_id) ==> r == Err::<ProofSubmitted, _>(
                QuestError::QuestNotFound,
            ),
            old(self).quests@.contains_key(quest_id) ==> {
                let q = old(self).quests@[quest_id];
                &&& !q.active ==> r == Err::<ProofSubmitted, _>(QuestError::QuestNotActive)
                &&& q.active && q.quest_type != QuestType::Build ==> r == Err::<ProofSubmitted, _>(
                    QuestError::NotBuildQuest,
                )
                &&& q.active && q.quest_type == QuestType::Build && old(self).submissions@.contains_key((learner, quest_id)) ==> r == Err::<ProofSubmitted, _>(
                    QuestError::SubmissionExists,
                )
                &&& q.active && q.quest_type == QuestType::Build && !old(self).submissions@.contains_key((learner, quest_id)) ==> r == Ok::<_, QuestError>(
                    ProofSubmitted { learner, quest_id, proof_hash },
                ) && final(self).submissions@ == old(self).submissions@.insert(
                    (learner, quest_id),
                    Submission { proof_hash, status: SubmissionStatus::Pending },
                )
            },
            r is Err ==> *final(self) == *old(self),
            final(self).admin == old(self).admin,
            final(self).token == old(self).token,
            final(self).reward_pool == old(self).reward_pool,
            final(self).stake_vault == old(self).stake_vault,
            final(self).quest_counter == old(self).quest_counter,
            final(self).is_paused == old(self).is_paused,
            final(self).quests == old(self).quests,
            final(self).verified == old(self).verified,
    {
        let quest = match self.quests.get(&quest_id) {
            Some(q) => *q,
            None => {
                return Err(QuestError::QuestNotFound);
            },
        };
        if !quest.active {
            return Err(QuestError::QuestNotActive);
        }
        match quest.quest_type {
            QuestType::Build => {},
            QuestType::Explore => {
                return Err(QuestError::NotBuildQuest);
            },
        }
        if self.submissions.contains_key(&(learner, quest_id)) {
            return Err(QuestError::SubmissionExists);
        }
        self.submissions.insert(
            (learner, quest_id),
            Submission { proof_hash, status: SubmissionStatus::Pending },
        );
        Ok(ProofSubmitted { learner, quest_id, proof_hash })
    }

    /// Checks that the caller is the admin before a code upgrade.
    pub fn upgrade_contract(&self, admin: AccountId, new_wasm_hash: [u8; 32]) -> (r: Result<
        ContractUpgraded,
        QuestError,
    >)
        ensures
            self.admin_check(admin) is Some ==> r == Err::<ContractUpgraded, _>(
                self.admin_check(admin).unwrap(),
            ),
            self.admin_check(admin) is None ==> r == Ok::<_, QuestError>(
                ContractUpgraded { admin, new_wasm_hash },
            ),
    {
        self.check_admin(admin)?;
        Ok(ContractUpgraded { admin, new_wasm_hash })
    }

    /// Whether reviews are halted.
    pub open spec fn paused(&self) -> bool {
        self.is_paused == Some(true)
    }

    /// The admin check shared by the administrative operations.
    pub open spec fn admin_check(&self, admin: AccountId) -> Option<QuestError> {
        match self.admin {
            None => Some(QuestError::NotInitialized),
            Some(a) => if a == admin {
                None
            } else {
                Some(QuestError::Unauthorized)
            },
        }
    }

    /// Every field but the quests is as in `other`.
    pub open spec fn same_but_quests(&self, other: &QuestEngineContract) -> bool {
        &&& self.admin == other.admin
        &&& self.token == other.token
        &&& self.reward_pool == other.reward_pool
        &&& self.stake_vault == other.stake_vault
        &&& self.is_paused == other.is_paused
        &&& self.submissions == other.submissions
        &&& self.verified == other.verified
    }

    fn check_admin(&self, admin: AccountId) -> (r: Result<(), QuestError>)
        ensures
            r == (match self.admin_check(admin) {
                Some(e) => Err(e),
                None => Ok(()),
            }),
    {
        match self.admin {
            None => Err(QuestError::NotInitialized),
            Some(stored) => if admin.same_as(&stored) {
                Ok(())
            } else {
                Err(QuestError::Unauthorized)
            },
        }
    }

    /// Closes an active quest and returns its unspent escrow to its employer, never more
    /// than the contract's token `balance`.
    pub fn refund_quest(&mut self, employer: AccountId, quest_id: u32, balance: i128) -> (r:
        Result<(Transfer, QuestRefunded), QuestError>)
        ensures
            !old(self).quests@.contains_key(quest_id) ==> r == Err::<(Transfer, QuestRefunded), _>(
                QuestError::QuestNotFound,
            ),
            old(self).quests@.contains_key(quest_id) ==> {
                let q = old(self).quests@[quest_id];
                let due = escrow_available(q, balance as int);
                &&& q.employer != employer ==> r == Err::<(Transfer, QuestRefunded), _>(
                    QuestError::Unauthorized,
                )
                &&& q.employer == employer && !q.active ==> r == Err::<
                    (Transfer, QuestRefunded),
                    _,
                >(QuestError::QuestInactive)
                &&& q.employer == employer && q.active && old(self).token is None ==> r == Err::<
                    (Transfer, QuestRefunded),
                    _,
                >(QuestError::NotInitialized)
                &&& q.employer == employer && q.active && old(self).token is Some
                    && !escrow_fits(q) ==> r == Err::<(Transfer, QuestRefunded), _>(
                    QuestError::Overflow,
                )
                &&& q.employer == employer && q.active && old(self).token is Some && escrow_fits(q)
                    && due <= 0 ==> r == Err::<(Transfer, QuestRefunded), _>(
                    QuestError::NoBalanceToRefund,
                )
                &&& q.employer == employer && q.active && old(self).token is Some && escrow_fits(q)
                    && due > 0 ==> {
                    &&& r == Ok::<_, QuestError>(
                        (
                            Transfer {
                                token: old(self).token.unwrap(),
                                from: Party::ThisContract,
                                to: Party::Account(employer),
                                amount: due as i128,
                            },
                            QuestRefunded { employer, quest_id, amount: due as i128 },
                        ),
                    )
                    &&& final(self).quests@ == old(self).quests@.insert(
                        quest_id,
                        Quest { active: false, refunded_amount: (q.refunded_amount + due) as i128, ..q },
                    )
                    &&& final(self).quests@[quest_id].refunded_amount <= q.total_funded
                        - q.consumed_amount
                }
            },
            r is Err ==> *final(self) == *old(self),
            final(self).same_but_quests(old(self)),
            final(self).quest_counter == old(self).quest_counter,
    {
        let quest = match self.quests.get(&quest_id) {
            Some(q) => *q,
            None => {
                return Err(QuestError::QuestNotFound);
            },
        };
        if !quest.employer.same_as(&employer) {
            return Err(QuestError::Unauthorized);
        }
        if !quest.active {
            return Err(QuestError::QuestInactive);
        }
        let token = match self.token {
            Some(t) => t,
            None => {
                return Err(QuestError::NotInitialized);
            },
        };
        let unspent = match unspent_escrow(&quest) {
            Some(v) => v,
            None => {
                return Err(QuestError::Overflow);
            },
        };
        let amount = if unspent < balance {
            unspent
        } else {
            balance
        };
        if amount <= 0 {
            return Err(QuestError::NoBalanceToRefund);
        }
        let refunded = quest.refunded_amount + amount;
        self.quests.insert(quest_id, Quest { active: false, refunded_amount: refunded, ..quest });
        Ok(
            (
                Transfer {
                    token,
                    from: Party::ThisContract,
                    to: Party::Account(employer),
                    amount,
                },
                QuestRefunded { employer, quest_id, amount },
            ),
        )
    }

    /// Confirms a learner's explore quest, once per learner and quest, and asks the
    /// reward pool to pay the quest's reward; admin only.
    pub fn verify_explore_quest(&mut self, admin: AccountId, learner: AccountId, quest_id: u32) -> (r:
        Result<(QuestAction, ExploreQuestVerified), QuestError>)
        ensures
            old(self).admin_check(admin) is Some ==> r == Err::<
                (QuestAction, ExploreQuestVerified),
                _,
            >(old(self).admin_check(admin).unwrap()),
            old(self).admin_check(admin) is None && !old(self).quests@.contains_key(quest_id) ==> r
                == Err::<(QuestAction, ExploreQuestVerified), _>(QuestError::QuestNotFound),
            old(self).admin_check(admin) is None && old(self).quests@.contains_key(quest_id) ==> {
                let q = old(self).quests@[quest_id];
                let done = old(self).verified@.contains_key((learner, quest_id));
                &&& q.quest_type != QuestType::Explore ==> r == Err::<
                    (QuestAction, ExploreQuestVerified),
                    _,
                >(QuestError::NotExploreQuest)
                &&& q.quest_type == QuestType::Explore && done ==> r == Err::<
                    (QuestAction, ExploreQuestVerified),
                    _,
                >(QuestError::AlreadyVerified)
                &&& q.quest_type == QuestType::Explore && !done && old(self).reward_pool is None
                    ==> r == Err::<(QuestAction, ExploreQuestVerified), _>(
                    QuestError::NotInitialized,
                )
                &&& q.quest_type == QuestType::Explore && !done && old(self).reward_pool is Some
                    ==> r == Ok::<_, QuestError>(
                    (
                        QuestAction::PoolReward {
                            pool: old(self).reward_pool.unwrap(),
                            learner,
                            amount: q.reward_amount,
                        },
                        ExploreQuestVerified { admin, learner, quest_id, amount: q.reward_amount },
                    ),
                ) && final(self).verified@ == old(self).verified@.insert((learner, quest_id), true)
            },
            r is Err ==> *final(self) == *old(self),
            final(self).admin == old(self).admin,
            final(self).token == old(self).token,
            final(self).reward_pool == old(self).reward_pool,
            final(self).stake_vault == old(self).stake_vault,
            final(self).quest_counter == old(self).quest_counter,
            final(self).is_paused == old(self).is_paused,
            final(self).quests == old(self).quests,
            final(self).submissions == old(self).submissions,
    {
        self.check_admin(admin)?;
        let quest = match self.quests.get(&quest_id) {
            Some(q) => *q,
            None => {
                return Err(QuestError::QuestNotFound);
            },
        };
        match quest.quest_type {
            QuestType::Explore => {},
            QuestType::Build => {
                return Err(QuestError::NotExploreQuest);
            },
        }
        if self.verified.contains_key(&(learner, quest_id)) {
            return Err(QuestError::AlreadyVerified);
        }
        let pool = match self.reward_pool {
            Some(p) => p,
            None => {
                return Err(QuestError::NotInitialized);
            },
        };
        self.verified.insert((learner, quest_id), true);
        Ok(
            (
                QuestAction::PoolReward { pool, learner, amount: quest.reward_amount },
                ExploreQuestVerified { admin, learner, quest_id, amount: quest.reward_amount },
            ),
        )
    }
}

} // verus!

verus! {

/// The payments that approving a submission makes: the fee to the pool, and the learner's
/// share scaled by the multiplier. From a multiplier of 100 on, the escrow pays the unscaled
/// share and the pool tops it up; below 100 the escrow pays the scaled share and the rest of
/// the share goes to the pool as a penalty.
pub open spec fn approval_actions(
    token: AccountId,
    pool: AccountId,
    learner: AccountId,
    reward: int,
    multiplier: int,
) -> Seq<QuestAction> {
    let fee = platform_fee(reward);
    let share = learner_share(reward);
    let boosted = scaled(share, multiplier);
    let fee_payment = QuestAction::Pay(
        Transfer {
            token,
            from: Party::ThisContract,
            to: Party::Account(pool),
            amount: fee as i128,
        },
    );
    if multiplier >= MULTIPLIER_SCALE {
        let base_payment = QuestAction::Pay(
            Transfer {
                token,
                from: Party::ThisContract,
                to: Party::Account(learner),
                amount: share as i128,
            },
        );
        if boosted > share {
            seq![
                fee_payment,
                base_payment,
                QuestAction::PoolReward { pool, learner, amount: (boosted - share) as i128 },
            ]
        } else {
            seq![fee_payment, base_payment]
        }
    } else {
        seq![
            fee_payment,
            QuestAction::Pay(
                Transfer {
                    token,
                    from: Party::ThisContract,
                    to: Party::Account(learner),
                    amount: boosted as i128,
                },
            ),
            QuestAction::Pay(
                Transfer {
                    token,
                    from: Party::ThisContract,
                    to: Party::Account(pool),
                    amount: (share - boosted) as i128,
                },
            ),
        ]
    }
}

/// The result of reviewing one submission.
#[derive(Debug, PartialEq, Eq)]
pub struct ReviewOutcome {
    pub actions: Vec<QuestAction>,
    pub event: SubmissionReviewed,
}

proof fn lemma_scaled_bounds(share: int, multiplier: int)
    requires
        0 <= multiplier,
    ensures
        multiplier < 100 && share >= 0 ==> 0 <= scaled(share, multiplier) <= share,
        multiplier < 100 && share < 0 ==> share <= scaled(share, multiplier) <= 0,
        multiplier >= 100 && share >= 0 ==> scaled(share, multiplier) >= share,
{
    if share >= 0 {
        assert(0 <= share * multiplier) by (nonlinear_arith)
            requires
                share >= 0,
                multiplier >= 0,
        ;
        if multiplier < 100 {
            assert((share * multiplier) / 100 <= share) by (nonlinear_arith)
                requires
                    share >= 0,
                    0 <= multiplier < 100,
            ;
        } else {
            assert((share * multiplier) / 100 >= share) by (nonlinear_arith)
                requires
                    share >= 0,
                    multiplier >= 100,
            ;
        }
    } else if multiplier < 100 {
        assert(share * multiplier <= 0) by (nonlinear_arith)
            requires
                share < 0,
                multiplier >= 0,
        ;
        assert(-(share * multiplier) == (-share) * multiplier) by (nonlinear_arith);
        assert(((-share) * multiplier) / 100 <= -share) by (nonlinear_arith)
            requires
                share < 0,
                0 <= multiplier < 100,
        ;
    }
}

impl QuestEngineContract {
    /// Approves or rejects a pending submission. Approval pays out of escrow, adjusted by
    /// the learner's stake `multiplier` (in hundredths), which the stake vault reports.
    pub fn review_submission(
        &mut self,
        employer: AccountId,
        learner: AccountId,
        quest_id: u32,
        approve: bool,
        multiplier: u32,
    ) -> (r: Result<ReviewOutcome, QuestError>)
        ensures
            old(self).paused() ==> r == Err::<ReviewOutcome, _>(QuestError::Paused),
            !old(self).paused() && !old(self).quests@.contains_key(quest_id) ==> r == Err::<
                ReviewOutcome,
                _,
            >(QuestError::QuestNotFound),
            !old(self).paused() && old(self).quests@.contains_key(quest_id) ==> {
                let q = old(self).quests@[quest_id];
                let key = (learner, quest_id);
                let sub = old(self).submissions@[key];
                let event = SubmissionReviewed { employer, learner, quest_id, approved: approve };
                &&& q.employer != employer ==> r == Err::<ReviewOutcome, _>(
                    QuestError::NotQuestEmployer,
                )
                &&& q.employer == employer && !old(self).submissions@.contains_key(key) ==> r
                    == Err::<ReviewOutcome, _>(QuestError::SubmissionNotFound)
                &&& q.employer == employer && old(self).submissions@.contains_key(key) ==> {
                    &&& sub.status != SubmissionStatus::Pending ==> r == Err::<ReviewOutcome, _>(
                        QuestError::NotPending,
                    )
                    &&& sub.status == SubmissionStatus::Pending && (old(self).token is None || old(
                        self,
                    ).reward_pool is None) ==> r == Err::<ReviewOutcome, _>(
                        QuestError::NotInitialized,
                    )
                    &&& sub.status == SubmissionStatus::Pending && old(self).token is Some && old(
                        self,
                    ).reward_pool is Some && !approve ==> {
                        &&& r is Ok
                        &&& r->Ok_0.event == event
                        &&& r->Ok_0.actions@ == Seq::<QuestAction>::empty()
                        &&& final(self).submissions@ == old(self).submissions@.insert(
                            key,
                            Submission { status: SubmissionStatus::Rejected, ..sub },
                        )
                        &&& final(self).quests == old(self).quests
                    }
                    &&& sub.status == SubmissionStatus::Pending && old(self).token is Some && old(
                        self,
                    ).reward_pool is Some && approve && old(self).stake_vault is None ==> r
                        == Err::<ReviewOutcome, _>(QuestError::NotInitialized)
                    &&& sub.status == SubmissionStatus::Pending && old(self).token is Some && old(
                        self,
                    ).reward_pool is Some && approve && old(self).stake_vault is Some && !(
                    payout_fits(q.reward_amount as int, multiplier as int) && i128::MIN
                        <= q.consumed_amount + q.reward_amount <= i128::MAX) ==> r == Err::<
                        ReviewOutcome,
                        _,
                    >(QuestError::Overflow)
                    &&& sub.status == SubmissionStatus::Pending && old(self).token is Some && old(
                        self,
                    ).reward_pool is Some && approve && old(self).stake_vault is Some
                        && payout_fits(q.reward_amount as int, multiplier as int) && i128::MIN
                        <= q.consumed_amount + q.reward_amount <= i128::MAX ==> {
                        &&& r is Ok
                        &&& r->Ok_0.event == event
                        &&& r->Ok_0.actions@ == approval_actions(
                            old(self).token.unwrap(),
                            old(self).reward_pool.unwrap(),
                            learner,
                            q.reward_amount as int,
                            multiplier as int,
                        )
                        &&& final(self).submissions@ == old(self).submissions@.insert(
                            key,
                            Submission { status: SubmissionStatus::Approved, ..sub },
                        )
                        &&& final(self).quests@ == old(self).quests@.insert(
                            quest_id,
                            Quest {
                                has_approved_submission: true,
                                consumed_amount: (q.consumed_amount + q.reward_amount) as i128,
                                ..q
                            },
                        )
                    }
                }
            },
            r is Err ==> *final(self) == *old(self),
            final(self).admin == old(self).admin,
            final(self).token == old(self).token,
            final(self).reward_pool == old(self).reward_pool,
            final(self).stake_vault == old(self).stake_vault,
            final(self).quest_counter == old(self).quest_counter,
            final(self).is_paused == old(self).is_paused,
            final(self).verified == old(self).verified,
    {
        let paused = match self.is_paused {
            Some(p) => p,
            None => false,
        };
        if paused {
            return Err(QuestError::Paused);
        }
        let quest = match self.quests.get(&quest_id) {
            Some(q) => *q,
            None => {
                return Err(QuestError::QuestNotFound);
            },
        };
        if !quest.employer.same_as(&employer) {
            return Err(QuestError::NotQuestEmployer);
        }
        let submission = match self.submissions.get(&(learner, quest_id)) {
            Some(s) => *s,
            None => {
                return Err(QuestError::SubmissionNotFound);
            },
        };
        match submission.status {
            SubmissionStatus::Pending => {},
            _ => {
                return Err(QuestError::NotPending);
            },
        }
        let token = match self.token {
            Some(t) => t,
            None => {
                return Err(QuestError::NotInitialized);
            },
        };
        let pool = match self.reward_pool {
            Some(p) => p,
            None => {
                return Err(QuestError::NotInitialized);
            },
        };
        let event = SubmissionReviewed { employer, learner, quest_id, approved: approve };
        if !approve {
            self.submissions.insert(
                (learner, quest_id),
                Submission { status: SubmissionStatus::Rejected, ..submission },
            );
            return Ok(ReviewOutcome { actions: Vec::new(), event });
        }
        if self.stake_vault.is_none() {
            return Err(QuestError::NotInitialized);
        }
        let (fee, share) = match split_reward(quest.reward_amount) {
            Some(p) => p,
            None => {
                return Err(QuestError::Overflow);
            },
        };
        let boosted = match apply_multiplier(share, multiplier) {
            Some(b) => b,
            None => {
                return Err(QuestError::Overflow);
            },
        };
        let consumed = match quest.consumed_amount.checked_add(quest.reward_amount) {
            Some(c) => c,
            None => {
                return Err(QuestError::Overflow);
            },
        };
        proof {
            lemma_scaled_bounds(share as int, multiplier as int);
        }
        let mut actions: Vec<QuestAction> = Vec::new();
        actions.push(
            QuestAction::Pay(
                Transfer {
                    token,
                    from: Party::ThisContract,
                    to: Party::Account(pool),
                    amount: fee,
                },
            ),
        );
        if multiplier as i128 >= MULTIPLIER_SCALE {
            actions.push(
                QuestAction::Pay(
                    Transfer {
                        token,
                        from: Party::ThisContract,
                        to: Party::Account(learner),
                        amount: share,
                    },
                ),
            );
            if boosted > share {
                actions.push(QuestAction::PoolReward { pool, learner, amount: boosted - share });
            }
        } else {
            actions.push(
                QuestAction::Pay(
                    Transfer {
                        token,
                        from: Party::ThisContract,
                        to: Party::Account(learner),
                        amount: boosted,
                    },
                ),
            );
            actions.push(
                QuestAction::Pay(
                    Transfer {
                        token,
                        from: Party::ThisContract,
                        to: Party::Account(pool),
                        amount: share - boosted,
                    },
                ),
            );
        }
        self.submissions.insert(
            (learner, quest_id),
            Submission { status: SubmissionStatus::Approved, ..submission },
        );
        self.quests.insert(
            quest_id,
            Quest { has_approved_submission: true, consumed_amount: consumed, ..quest },
        );
        proof {
            assert(actions@ =~= approval_actions(
                token,
                pool,
                learner,
                quest.reward_amount as int,
                multiplier as int,
            ));
        }
        Ok(ReviewOutcome { actions, event })
    }
}

} // verus!

verus! {

/// The first reason, from position `from` on, why the learners' submissions cannot all be
/// approved in turn: a missing submission, or one that is no longer pending (which is also
/// the case of a learner listed a second time).
pub open spec fn batch_fault(
    subs: Map<(AccountId, u32), Submission>,
    learners: Seq<AccountId>,
    quest_id: u32,
    from: int,
) -> Option<QuestError>
    decreases learners.len() - from,
{
    if from < 0 || from >= learners.len() {
        None
    } else {
        let key = (learners[from], quest_id);
        if !subs.contains_key(key) {
            Some(QuestError::SubmissionNotFound)
        } else if subs[key].status != SubmissionStatus::Pending || learners.take(from).contains(
            learners[from],
        ) {
            Some(QuestError::NotPending)
        } else {
            batch_fault(subs, learners, quest_id, from + 1)
        }
    }
}

/// The payments of a batch approval: for each learner in turn, the fee to the pool and the
/// learner's share to the learner.
pub open spec fn batch_actions(
    token: AccountId,
    pool: AccountId,
    learners: Seq<AccountId>,
    fee: int,
    share: int,
) -> Seq<QuestAction>
    decreases learners.len(),
{
    if learners.len() == 0 {
        Seq::empty()
    } else {
        batch_actions(token, pool, learners.drop_last(), fee, share) + seq![
            QuestAction::Pay(
                Transfer {
                    token,
                    from: Party::ThisContract,
                    to: Party::Account(pool),
                    amount: fee as i128,
                },
            ),
            QuestAction::Pay(
                Transfer {
                    token,
                    from: Party::ThisContract,
                    to: Party::Account(learners.last()),
                    amount: share as i128,
                },
            ),
        ]
    }
}

/// The submissions with those of the listed learners for the quest approved.
pub open spec fn approve_all(
    subs: Map<(AccountId, u32), Submission>,
    learners: Seq<AccountId>,
    quest_id: u32,
) -> Map<(AccountId, u32), Submission> {
    Map::new(
        |k: (AccountId, u32)| subs.contains_key(k),
        |k: (AccountId, u32)|
            if k.1 == quest_id && learners.contains(k.0) {
                Submission { status: SubmissionStatus::Approved, ..subs[k] }
            } else {
                subs[k]
            },
    )
}

/// The review events of a batch approval, one per learner.
pub open spec fn batch_events(employer: AccountId, learners: Seq<AccountId>, quest_id: u32) -> Seq<
    SubmissionReviewed,
> {
    learners.map_values(
        |l: AccountId| SubmissionReviewed { employer, learner: l, quest_id, approved: true },
    )
}

/// Escrow that a batch approval of `n` learners pays out: each learner's share and fee.
pub open spec fn batch_cost(reward: int, n: int) -> int {
    learner_share(reward) * n + platform_fee(reward) * n
}

/// Whether the cost of a batch approval can be computed in 128 bits.
pub open spec fn batch_cost_fits(reward: int, n: int) -> bool {
    &&& i128::MIN <= reward * FEE_PERCENT <= i128::MAX
    &&& i128::MIN <= learner_share(reward) * n <= i128::MAX
    &&& i128::MIN <= platform_fee(reward) * n <= i128::MAX
    &&& i128::MIN <= batch_cost(reward, n) <= i128::MAX
}

/// The result of approving a batch of submissions.
#[derive(Debug, PartialEq, Eq)]
pub struct BatchOutcome {
    pub actions: Vec<QuestAction>,
    pub reviewed: Vec<SubmissionReviewed>,
    pub event: BatchReviewed,
}

proof fn lemma_batch_fault_free(
    subs: Map<(AccountId, u32), Submission>,
    learners: Seq<AccountId>,
    quest_id: u32,
    from: int,
)
    requires
        0 <= from <= learners.len(),
        batch_fault(subs, learners, quest_id, from) is None,
    ensures
        forall|i: int|
            from <= i < learners.len() ==> subs.contains_key((#[trigger] learners[i], quest_id))
                && subs[(learners[i], quest_id)].status == SubmissionStatus::Pending
                && !learners.take(i).contains(learners[i]),
    decreases learners.len() - from,
{
    if from < learners.len() {
        lemma_batch_fault_free(subs, learners, quest_id, from + 1);
    }
}

impl QuestEngineContract {
    /// Approves the submissions of all the listed learners at the quest's flat payout and
    /// closes the quest. `balance` is the contract's token balance, which must cover the
    /// whole batch.
    #[verifier::loop_isolation(false)]
    pub fn batch_review_submissions(
        &mut self,
        employer: AccountId,
        quest_id: u32,
        learners: &Vec<AccountId>,
        balance: i128,
    ) -> (r: Result<BatchOutcome, QuestError>)
        requires
            learners.len() <= u32::MAX,
        ensures
            old(self).paused() ==> r == Err::<BatchOutcome, _>(QuestError::Paused),
            !old(self).paused() && !old(self).quests@.contains_key(quest_id) ==> r == Err::<
                BatchOutcome,
                _,
            >(QuestError::QuestNotFound),
            !old(self).paused() && old(self).quests@.contains_key(quest_id) ==> {
                let q = old(self).quests@[quest_id];
                let n = learners.len() as int;
                let cost = batch_cost(q.reward_amount as int, n);
                let ready = q.employer == employer && old(self).token is Some && old(
                    self,
                ).reward_pool is Some;
                let fault = batch_fault(old(self).submissions@, learners@, quest_id, 0);
                let funded = batch_cost_fits(q.reward_amount as int, n) && balance >= cost;
                &&& q.employer != employer ==> r == Err::<BatchOutcome, _>(
                    QuestError::NotQuestEmployer,
                )
                &&& q.employer == employer && (old(self).token is None || old(
                    self,
                ).reward_pool is None) ==> r == Err::<BatchOutcome, _>(QuestError::NotInitialized)
                &&& ready && !batch_cost_fits(q.reward_amount as int, n) ==> r == Err::<
                    BatchOutcome,
                    _,
                >(QuestError::Overflow)
                &&& ready && batch_cost_fits(q.reward_amount as int, n) && balance < cost ==> r
                    == Err::<BatchOutcome, _>(QuestError::InsufficientBudget)
                &&& ready && funded && fault is Some ==> r == Err::<BatchOutcome, _>(fault.unwrap())
                &&& ready && funded && fault is None && !(i128::MIN <= q.consumed_amount + cost
                    <= i128::MAX) ==> r == Err::<BatchOutcome, _>(QuestError::Overflow)
                &&& ready && funded && fault is None && i128::MIN <= q.consumed_amount + cost
                    <= i128::MAX ==> {
                    &&& r is Ok
                    &&& r->Ok_0.actions@ == batch_actions(
                        old(self).token.unwrap(),
                        old(self).reward_pool.unwrap(),
                        learners@,
                        platform_fee(q.reward_amount as int),
                        learner_share(q.reward_amount as int),
                    )
                    &&& r->Ok_0.reviewed@ == batch_events(employer, learners@, quest_id)
                    &&& r->Ok_0.event == BatchReviewed {
                        employer,
                        quest_id,
                        approved_count: n as u32,
                    }
                    &&& final(self).submissions@ == approve_all(
                        old(self).submissions@,
                        learners@,
                        quest_id,
                    )
                    &&& forall|i: int|
                        0 <= i < n ==> #[trigger] final(self).submissions@[(
                            learners@[i],
                            quest_id,
                        )].status == SubmissionStatus::Approved
                    &&& final(self).quests@ == old(self).quests@.insert(
                        quest_id,
                        Quest {
                            active: false,
                            has_approved_submission: q.has_approved_submission || n > 0,
                            consumed_amount: (q.consumed_amount + cost) as i128,
                            ..q
                        },
                    )
                }
            },
            r is Err ==> *final(self) == *old(self),
            final(self).admin == old(self).admin,
            final(self).token == old(self).token,
            final(self).reward_pool == old(self).reward_pool,
            final(self).stake_vault == old(self).stake_vault,
            final(self).quest_counter == old(self).quest_counter,
            final(self).is_paused == old(self).is_paused,
            final(self).verified == old(self).verified,
    {
        let paused = match self.is_paused {
            Some(p) => p,
            None => false,
        };
        if paused {
            return Err(QuestError::Paused);
        }
        let quest = match self.quests.get(&quest_id) {
            Some(q) => *q,
            None => {
                return Err(QuestError::QuestNotFound);
            },
        };
        if !quest.employer.same_as(&employer) {
            return Err(QuestError::NotQuestEmployer);
        }
        let token = match self.token {
            Some(t) => t,
            None => {
                return Err(QuestError::NotInitialized);
            },
        };
        let pool = match self.reward_pool {
            Some(p) => p,
            None => {
                return Err(QuestError::NotInitialized);
            },
        };
        let n = learners.len();
        let (fee, share) = match split_reward(quest.reward_amount) {
            Some(p) => p,
            None => {
                return Err(QuestError::Overflow);
            },
        };
        let total_payout = match share.checked_mul(n as i128) {
            Some(v) => v,
            None => {
                return Err(QuestError::Overflow);
            },
        };
        let total_fee = match fee.checked_mul(n as i128) {
            Some(v) => v,
            None => {
                return Err(QuestError::Overflow);
            },
        };
        let cost = match total_payout.checked_add(total_fee) {
            Some(v) => v,
            None => {
                return Err(QuestError::Overflow);
            },
        };
        if balance < cost {
            return Err(QuestError::InsufficientBudget);
        }
        let ghost subs0 = self.submissions@;
        let mut i: usize = 0;
        while i < n
            invariant
                0 <= i <= n,
                n == learners.len(),
                self.submissions@ == subs0,
                batch_fault(subs0, learners@, quest_id, 0) == batch_fault(
                    subs0,
                    learners@,
                    quest_id,
                    i as int,
                ),
            decreases n - i,
        {
            let l = learners[i];
            match self.submissions.get(&(l, quest_id)) {
                None => {
                    return Err(QuestError::SubmissionNotFound);
                },
                Some(s) => {
                    match s.status {
                        SubmissionStatus::Pending => {},
                        _ => {
                            return Err(QuestError::NotPending);
                        },
                    }
                },
            }
            let mut j: usize = 0;
            while j < i
                invariant
                    0 <= j <= i < n,
                    n == learners.len(),
                    l == learners@[i as int],
                    forall|k: int| 0 <= k < j ==> learners@[k] != l,
                decreases i - j,
            {
                if learners[j].same_as(&l) {
                    proof {
                        assert(learners@.take(i as int)[j as int] == l);
                    }
                    return Err(QuestError::NotPending);
                }
                j = j + 1;
            }
            proof {
                assert(!learners@.take(i as int).contains(l)) by {
                    if learners@.take(i as int).contains(l) {
                        let k = choose|k: int|
                            0 <= k < i && #[trigger] learners@.take(i as int)[k] == l;
                        assert(learners@[k] == l);
                    }
                }
            }
            i = i + 1;
        }
        let consumed = match quest.consumed_amount.checked_add(cost) {
            Some(c) => c,
            None => {
                return Err(QuestError::Overflow);
            },
        };
        proof {
            lemma_batch_fault_free(subs0, learners@, quest_id, 0);
        }
        let mut actions: Vec<QuestAction> = Vec::new();
        let mut reviewed: Vec<SubmissionReviewed> = Vec::new();
        let mut i: usize = 0;
        assert(approve_all(subs0, learners@.take(0), quest_id) =~= subs0);
        assert(batch_events(employer, learners@.take(0), quest_id) =~= reviewed@);
        while i < n
            invariant
                0 <= i <= n,
                n == learners.len(),
                forall|k: int|
                    0 <= k < n ==> subs0.contains_key((#[trigger] learners@[k], quest_id))
                        && subs0[(learners@[k], quest_id)].status == SubmissionStatus::Pending
                        && !learners@.take(k).contains(learners@[k]),
                self.submissions@ == approve_all(subs0, learners@.take(i as int), quest_id),
                actions@ == batch_actions(
                    token,
                    pool,
                    learners@.take(i as int),
                    fee as int,
                    share as int,
                ),
                reviewed@ == batch_events(employer, learners@.take(i as int), quest_id),
                self.quests == old(self).quests,
                self.admin == old(self).admin,
                self.token == old(self).token,
                self.reward_pool == old(self).reward_pool,
                self.stake_vault == old(self).stake_vault,
                self.quest_counter == old(self).quest_counter,
                self.is_paused == old(self).is_paused,
                self.verified == old(self).verified,
            decreases n - i,
        {
            let l = learners[i];
            let key = (l, quest_id);
            let s = match self.submissions.get(&key) {
                Some(s) => *s,
                None => {
                    proof {
                        assert(subs0.contains_key((learners@[i as int], quest_id)));
                    }
                    return Err(QuestError::SubmissionNotFound);
                },
            };
            proof {
                assert(!learners@.take(i as int).contains(l));
                assert(s == subs0[key]);
            }
            self.submissions.insert(key, Submission { status: SubmissionStatus::Approved, ..s });
            actions.push(
                QuestAction::Pay(
                    Transfer {
                        token,
                        from: Party::ThisContract,
                        to: Party::Account(pool),
                        amount: fee,
                    },
                ),
            );
            actions.push(
                QuestAction::Pay(
                    Transfer {
                        token,
                        from: Party::ThisContract,
                        to: Party::Account(l),
                        amount: share,
                    },
                ),
            );
            reviewed.push(SubmissionReviewed { employer, learner: l, quest_id, approved: true });
            proof {
                let prev = learners@.take(i as int);
                let next = learners@.take(i + 1);
                assert(next.drop_last() =~= prev);
                assert(next.last() == l);
                assert forall|x: AccountId| #[trigger] next.contains(x) <==> prev.contains(x) || x
                    == l by {
                    if next.contains(x) {
                        let k = choose|k: int| 0 <= k < next.len() && next[k] == x;
                        if k < i {
                            assert(prev[k] == x);
                        }
                    }
                    if prev.contains(x) {
                        let k = choose|k: int| 0 <= k < prev.len() && prev[k] == x;
                        assert(next[k] == x);
                    }
                    if x == l {
                        assert(next[i as int] == x);
                    }
                }
                assert(self.submissions@ =~= approve_all(subs0, next, quest_id));
                assert(reviewed@ =~= batch_events(employer, next, quest_id));
            }
            i = i + 1;
        }
        proof {
            assert(learners@.take(n as int) =~= learners@);
            lemma_batch_approves_every_listed(subs0, learners@, quest_id);
        }
        self.quests.insert(
            quest_id,
            Quest {
                active: false,
                has_approved_submission: quest.has_approved_submission || n > 0,
                consumed_amount: consumed,
                ..quest
            },
        );
        Ok(
            BatchOutcome {
                actions,
                reviewed,
                event: BatchReviewed { employer, quest_id, approved_count: n as u32 },
            },
        )
    }
}

} // verus!

verus! {

/// Tokens that leave this contract's escrow through the actions.
pub open spec fn escrow_outflow(actions: Seq<QuestAction>) -> int
    decreases actions.len(),
{
    if actions.len() == 0 {
        0
    } else {
        escrow_outflow(actions.drop_last()) + match actions.last() {
            QuestAction::Pay(t) => if t.from == Party::ThisContract {
                t.amount as int
            } else {
                0
            },
            QuestAction::PoolReward { .. } => 0,
        }
    }
}

/// Tokens that the actions bring to the account, from the escrow or from the pool.
pub open spec fn received_by(actions: Seq<QuestAction>, who: AccountId) -> int
    decreases actions.len(),
{
    if actions.len() == 0 {
        0
    } else {
        received_by(actions.drop_last(), who) + match actions.last() {
            QuestAction::Pay(t) => if t.to == Party::Account(who) {
                t.amount as int
            } else {
                0
            },
            QuestAction::PoolReward { learner, amount, .. } => if learner == who {
                amount as int
            } else {
                0
            },
        }
    }
}

/// Tokens that the reward pool pays out through the actions.
pub open spec fn drawn_from_pool(actions: Seq<QuestAction>) -> int
    decreases actions.len(),
{
    if actions.len() == 0 {
        0
    } else {
        drawn_from_pool(actions.drop_last()) + match actions.last() {
            QuestAction::Pay(_) => 0,
            QuestAction::PoolReward { amount, .. } => amount as int,
        }
    }
}

/// For a non-negative reward the fee and the learner's share add up to the reward, and the
/// fee is never more than the share.
pub proof fn lemma_fee_split(reward: int)
    requires
        reward >= 0,
    ensures
        platform_fee(reward) + learner_share(reward) == reward,
        0 <= platform_fee(reward) <= learner_share(reward),
{
    assert(0 <= (reward * 15) / 100) by (nonlinear_arith)
        requires
            reward >= 0,
    ;
    assert(2 * ((reward * 15) / 100) <= reward) by (nonlinear_arith)
        requires
            reward >= 0,
    ;
}

/// A larger multiplier never scales a non-negative amount down, and a multiplier of 100
/// leaves it unchanged.
pub proof fn lemma_scaling_monotone(amount: int, m1: int, m2: int)
    requires
        amount >= 0,
        0 <= m1 <= m2,
    ensures
        scaled(amount, m1) <= scaled(amount, m2),
        scaled(amount, MULTIPLIER_SCALE as int) == amount,
{
    assert(0 <= amount * m1 <= amount * m2) by (nonlinear_arith)
        requires
            amount >= 0,
            0 <= m1 <= m2,
    ;
    assert((amount * m1) / 100 <= (amount * m2) / 100) by (nonlinear_arith)
        requires
            0 <= amount * m1 <= amount * m2,
    ;
    assert((amount * 100) / 100 == amount) by (nonlinear_arith);
}

/// Approving a submission takes exactly one reward out of escrow; the learner receives
/// the scaled share; the pool gets the fee and any penalty and pays any top-up.
pub proof fn lemma_approval_accounting(
    token: AccountId,
    pool: AccountId,
    learner: AccountId,
    reward: int,
    multiplier: int,
)
    requires
        pool != learner,
        reward >= 0,
        multiplier >= 0,
        payout_fits(reward, multiplier),
    ensures
        escrow_outflow(approval_actions(token, pool, learner, reward, multiplier)) == reward,
        received_by(approval_actions(token, pool, learner, reward, multiplier), learner) == scaled(
            learner_share(reward),
            multiplier,
        ),
        received_by(approval_actions(token, pool, learner, reward, multiplier), pool) - drawn_from_pool(
            approval_actions(token, pool, learner, reward, multiplier),
        ) == platform_fee(reward) + learner_share(reward) - scaled(learner_share(reward), multiplier),
{
    lemma_fee_split(reward);
    lemma_fee_bounds(reward);
    let share = learner_share(reward);
    lemma_scaled_bounds(share, multiplier);
    let s = approval_actions(token, pool, learner, reward, multiplier);
    reveal_with_fuel(escrow_outflow, 4);
    reveal_with_fuel(received_by, 4);
    reveal_with_fuel(drawn_from_pool, 4);
    assert(i128::MIN <= share * multiplier <= i128::MAX);
    assert(0 <= share * multiplier) by (nonlinear_arith)
        requires
            share >= 0,
            multiplier >= 0,
    ;
    assert((share * multiplier) / 100 <= share * multiplier) by (nonlinear_arith)
        requires
            share * multiplier >= 0,
    ;
    if multiplier >= 100 {
        if scaled(share, multiplier) > share {
            assert(s.drop_last().drop_last().drop_last() =~= Seq::<QuestAction>::empty());
        } else {
            assert(s.drop_last().drop_last() =~= Seq::<QuestAction>::empty());
        }
    } else {
        assert(s.drop_last().drop_last().drop_last() =~= Seq::<QuestAction>::empty());
    }
}

/// A batch approval of `n` learners takes `n` rewards' worth of fees and shares out of
/// escrow, and draws nothing from the pool.
pub proof fn lemma_batch_accounting(
    token: AccountId,
    pool: AccountId,
    learners: Seq<AccountId>,
    reward: int,
)
    requires
        reward >= 0,
        i128::MIN <= reward * FEE_PERCENT <= i128::MAX,
    ensures
        escrow_outflow(
            batch_actions(token, pool, learners, platform_fee(reward), learner_share(reward)),
        ) == reward * learners.len(),
        drawn_from_pool(
            batch_actions(token, pool, learners, platform_fee(reward), learner_share(reward)),
        ) == 0,
        batch_actions(token, pool, learners, platform_fee(reward), learner_share(reward)).len()
            == 2 * learners.len(),
    decreases learners.len(),
{
    lemma_fee_split(reward);
    lemma_fee_bounds(reward);
    if learners.len() > 0 {
        let rest = learners.drop_last();
        lemma_batch_accounting(token, pool, rest, reward);
        let prev = batch_actions(token, pool, rest, platform_fee(reward), learner_share(reward));
        let all = batch_actions(token, pool, learners, platform_fee(reward), learner_share(reward));
        assert(all.drop_last().drop_last() =~= prev);
        reveal_with_fuel(escrow_outflow, 3);
        reveal_with_fuel(drawn_from_pool, 3);
        assert(reward * learners.len() == reward * rest.len() + reward) by (nonlinear_arith)
            requires
                learners.len() == rest.len() + 1,
        ;
    }
}

/// A refund returns a positive amount no larger than the quest's unspent escrow or the
/// contract's balance, so the quest never refunds more than was left after payouts.
pub proof fn lemma_refund_within_escrow(q: Quest, balance: int)
    requires
        escrow_available(q, balance) > 0,
    ensures
        escrow_available(q, balance) <= unspent(q),
        escrow_available(q, balance) <= balance,
        q.refunded_amount + escrow_available(q, balance) <= q.total_funded - q.consumed_amount,
{
}

/// Between two approvals of the same reward that differ only in the learner's multiplier,
/// the larger multiplier never pays the learner less.
pub proof fn lemma_payout_monotone_in_multiplier(
    token: AccountId,
    pool: AccountId,
    learner: AccountId,
    reward: int,
    m1: int,
    m2: int,
)
    requires
        pool != learner,
        reward >= 0,
        0 <= m1 <= m2,
        payout_fits(reward, m1),
        payout_fits(reward, m2),
    ensures
        received_by(approval_actions(token, pool, learner, reward, m1), learner) <= received_by(
            approval_actions(token, pool, learner, reward, m2),
            learner,
        ),
{
    lemma_approval_accounting(token, pool, learner, reward, m1);
    lemma_approval_accounting(token, pool, learner, reward, m2);
    lemma_fee_split(reward);
    lemma_scaling_monotone(learner_share(reward), m1, m2);
}

/// In a batch approval of distinct learners, each listed learner other than the pool
/// receives exactly one share, and a pool that is not listed receives one fee per learner.
pub proof fn lemma_batch_pays_each_learner(
    token: AccountId,
    pool: AccountId,
    learners: Seq<AccountId>,
    fee: int,
    share: int,
    who: AccountId,
)
    requires
        forall|i: int, j: int| 0 <= i < j < learners.len() ==> learners[i] != learners[j],
        who != pool,
        i128::MIN <= fee <= i128::MAX,
        i128::MIN <= share <= i128::MAX,
    ensures
        learners.contains(who) ==> received_by(batch_actions(token, pool, learners, fee, share), who)
            == share,
        !learners.contains(who) ==> received_by(batch_actions(token, pool, learners, fee, share), who)
            == 0,
        !learners.contains(pool) ==> received_by(batch_actions(token, pool, learners, fee, share), pool)
            == fee * learners.len(),
    decreases learners.len(),
{
    if learners.len() > 0 {
        let rest = learners.drop_last();
        let last = learners.last();
        lemma_batch_pays_each_learner(token, pool, rest, fee, share, who);
        let prev = batch_actions(token, pool, rest, fee, share);
        let all = batch_actions(token, pool, learners, fee, share);
        let mid = all.drop_last();
        assert(mid.drop_last() =~= prev);
        assert(all.last() == QuestAction::Pay(
            Transfer {
                token,
                from: Party::ThisContract,
                to: Party::Account(last),
                amount: share as i128,
            },
        ));
        assert(mid.last() == QuestAction::Pay(
            Transfer { token, from: Party::ThisContract, to: Party::Account(pool), amount: fee as i128 },
        ));
        assert(received_by(all, who) == received_by(mid, who) + (if last == who {
            share
        } else {
            0
        }));
        assert(received_by(mid, who) == received_by(prev, who) + (if pool == who {
            fee
        } else {
            0
        }));
        assert(received_by(all, pool) == received_by(mid, pool) + (if last == pool {
            share
        } else {
            0
        }));
        assert(received_by(mid, pool) == received_by(prev, pool) + fee);
        assert(!rest.contains(last)) by {
            if rest.contains(last) {
                let k = choose|k: int| 0 <= k < rest.len() && rest[k] == last;
                assert(learners[k] == learners[learners.len() - 1]);
            }
        }
        assert(learners.contains(who) <==> rest.contains(who) || who == last) by {
            if learners.contains(who) {
                let k = choose|k: int| 0 <= k < learners.len() && learners[k] == who;
                if k < rest.len() {
                    assert(rest[k] == who);
                }
            }
            if rest.contains(who) {
                let k = choose|k: int| 0 <= k < rest.len() && rest[k] == who;
                assert(learners[k] == who);
            }
        }
        if !learners.contains(pool) {
            assert(!rest.contains(pool)) by {
                if rest.contains(pool) {
                    let k = choose|k: int| 0 <= k < rest.len() && rest[k] == pool;
                    assert(learners[k] == pool);
                }
            }
            assert(last != pool);
            assert(fee * learners.len() == fee * rest.len() + fee) by (nonlinear_arith)
                requires
                    learners.len() == rest.len() + 1,
            ;
        }
    }
}

/// A batch approval marks every listed learner's submission on the quest Approved and
/// leaves its proof alone; every other submission, and the set of submissions, is
/// unchanged.
pub proof fn lemma_batch_approves_every_listed(
    subs: Map<(AccountId, u32), Submission>,
    learners: Seq<AccountId>,
    quest_id: u32,
)
    ensures
        approve_all(subs, learners, quest_id).dom() == subs.dom(),
        forall|i: int|
            0 <= i < learners.len() && subs.contains_key((learners[i], quest_id)) ==> {
                &&& #[trigger] approve_all(subs, learners, quest_id)[(learners[i], quest_id)].status
                    == SubmissionStatus::Approved
                &&& approve_all(subs, learners, quest_id)[(learners[i], quest_id)].proof_hash
                    == subs[(learners[i], quest_id)].proof_hash
            },
        forall|k: (AccountId, u32)|
            subs.contains_key(k) && (k.1 != quest_id || !learners.contains(k.0)) ==> #[trigger] approve_all(
                subs,
                learners,
                quest_id,
            )[k] == subs[k],
{
    assert(approve_all(subs, learners, quest_id).dom() =~= subs.dom());
    assert forall|i: int|
        0 <= i < learners.len() && subs.contains_key((learners[i], quest_id)) implies {
            &&& #[trigger] approve_all(subs, learners, quest_id)[(learners[i], quest_id)].status
                == SubmissionStatus::Approved
            &&& approve_all(subs, learners, quest_id)[(learners[i], quest_id)].proof_hash
                == subs[(learners[i], quest_id)].proof_hash
        } by {
        assert(learners.contains(learners[i]));
    }
}

/// Every payment of an approval is made by this contract in the quest's token, to the
/// reward pool or to the learner, and a top-up is asked of the configured pool for that
/// learner.
pub proof fn lemma_approval_pays_in_quest_token(
    token: AccountId,
    pool: AccountId,
    learner: AccountId,
    reward: int,
    multiplier: int,
)
    ensures
        forall|i: int|
            0 <= i < approval_actions(token, pool, learner, reward, multiplier).len() ==> match
                #[trigger] approval_actions(token, pool, learner, reward, multiplier)[i] {
                QuestAction::Pay(t) => t.token == token && t.from == Party::ThisContract && (t.to
                    == Party::Account(pool) || t.to == Party::Account(learner)),
                QuestAction::PoolReward { pool: p, learner: l, .. } => p == pool && l == learner,
            },
        approval_actions(token, pool, learner, reward, multiplier)[0] == QuestAction::Pay(
            Transfer {
                token,
                from: Party::ThisContract,
                to: Party::Account(pool),
                amount: platform_fee(reward) as i128,
            },
        ),
{
}

/// Every payment of a batch approval is made by this contract in the quest's token: the
/// fee to the reward pool, then the share to the learner, for each learner in turn.
pub proof fn lemma_batch_pays_in_quest_token(
    token: AccountId,
    pool: AccountId,
    learners: Seq<AccountId>,
    fee: int,
    share: int,
)
    ensures
        batch_actions(token, pool, learners, fee, share).len() == 2 * learners.len(),
        forall|i: int|
            0 <= i < learners.len() ==> {
                &&& #[trigger] batch_actions(token, pool, learners, fee, share)[2 * i]
                    == QuestAction::Pay(
                    Transfer {
                        token,
                        from: Party::ThisContract,
                        to: Party::Account(pool),
                        amount: fee as i128,
                    },
                )
                &&& batch_actions(token, pool, learners, fee, share)[2 * i + 1] == QuestAction::Pay(
                    Transfer {
                        token,
                        from: Party::ThisContract,
                        to: Party::Account(learners[i]),
                        amount: share as i128,
                    },
                )
            },
    decreases learners.len(),
{
    if learners.len() > 0 {
        let rest = learners.drop_last();
        lemma_batch_pays_in_quest_token(token, pool, rest, fee, share);
        let prev = batch_actions(token, pool, rest, fee, share);
        let all = batch_actions(token, pool, learners, fee, share);
        assert forall|i: int| 0 <= i < learners.len() implies {
            &&& #[trigger] all[2 * i] == QuestAction::Pay(
                Transfer {
                    token,
                    from: Party::ThisContract,
                    to: Party::Account(pool),
                    amount: fee as i128,
                },
            )
            &&& all[2 * i + 1] == QuestAction::Pay(
                Transfer {
                    token,
                    from: Party::ThisContract,
                    to: Party::Account(learners[i]),
                    amount: share as i128,
                },
            )
        } by {
            if i < rest.len() {
                assert(prev[2 * i] == all[2 * i]);
                assert(prev[2 * i + 1] == all[2 * i + 1]);
                assert(rest[i] == learners[i]);
            }
        }
    }
}

} // verus!
