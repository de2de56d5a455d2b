use vstd::prelude::*;

use crate::account::AccountId;
use crate::table::Table;

verus! {

/// Which integrations a course needs for its completion to go through.
#[derive(Clone, Copy, Debug, PartialEq, Eq)]
pub enum CompletionPolicy {
    /// No integrations required; side effects run when configured and may fail.
    Optional,
    /// The reward pool must be configured and must pay.
    RewardRequired,
    /// The badge contract must be configured and must mint.
    BadgeRequired,
    /// Both integrations are required.
    BothRequired,
}

impl Default for CompletionPolicy {
    fn default() -> (p: CompletionPolicy)
        ensures
            p == CompletionPolicy::Optional,
    {
        CompletionPolicy::Optional
    }
}

impl CompletionPolicy {
    /// Whether the policy needs the reward to be paid.
    pub open spec fn requires_reward(self) -> bool {
        self == CompletionPolicy::RewardRequired || self == CompletionPolicy::BothRequired
    }

    /// Whether the policy needs the badge to be minted.
    pub open spec fn requires_badge(self) -> bool {
        self == CompletionPolicy::BadgeRequired || self == CompletionPolicy::BothRequired
    }
}

/// A course in the registry.
#[derive(Clone, Copy, Debug, PartialEq, Eq)]
pub struct Course {
    pub instructor: AccountId,
    pub total_modules: u32,
    pub metadata_hash: [u8; 32],
    pub active: bool,
    pub reward_amount: i128,
    pub completion_policy: CompletionPolicy,
}

/// Why a course registry operation was refused.
#[derive(Clone, Copy, Debug, PartialEq, Eq)]
pub enum CourseError {
    AlreadyInitialized,
    NotInitialized,
    Unauthorized,
    UpgradeNotInitialized,
    UpgradeUnauthorized,
    ZeroModules,
    NegativeReward,
    CourseNotFound,
    CourseNotActive,
    AlreadyEnrolled,
    NotInstructor,
    AlreadyCompleted,
    RewardPoolRequired,
    BadgeNftRequired,
    RewardPayoutFailed,
    BadgeMintFailed,
    Overflow,
}

impl CourseError {
    /// The text with which the contract aborts.
    pub fn message(&self) -> (r: &'static str)
        ensures
            r@ == self.message_text(),
    {
        match self {
            CourseError::AlreadyInitialized => "Already initialized",
            CourseError::NotInitialized => "Contract not initialized",
            CourseError::Unauthorized => "Unauthorized: Caller is not the protocol admin",
            CourseError::UpgradeNotInitialized => "Not initialized",
            CourseError::UpgradeUnauthorized => "Unauthorized",
            CourseError::ZeroModules => "total_modules must be greater than 0",
            CourseError::NegativeReward => "reward_amount must be non-negative",
            CourseError::CourseNotFound => "Course not found",
            CourseError::CourseNotActive => "Course is not active",
            CourseError::AlreadyEnrolled => "Learner already enrolled",
            CourseError::NotInstructor => "Unauthorized: Caller is not the course instructor",
            CourseError::AlreadyCompleted => "Course already completed",
            CourseError::RewardPoolRequired =>
                "Completion policy violation: Reward pool required but not configured",
            CourseError::BadgeNftRequired =>
                "Completion policy violation: Badge NFT required but not configured",
            CourseError::RewardPayoutFailed => "Reward payout failed but required by policy",
            CourseError::BadgeMintFailed => "Badge minting failed but required by policy",
            CourseError::Overflow => "Arithmetic overflow",
        }
    }

    /// The text with which the contract aborts, as characters.
    pub open spec fn message_text(&self) -> Seq<char> {
        match self {
            CourseError::AlreadyInitialized => "Already initialized"@,
            CourseError::NotInitialized => "Contract not initialized"@,
            CourseError::Unauthorized => "Unauthorized: Caller is not the protocol admin"@,
            CourseError::UpgradeNotInitialized => "Not initialized"@,
            CourseError::UpgradeUnauthorized => "Unauthorized"@,
            CourseError::ZeroModules => "total_modules must be greater than 0"@,
            CourseError::NegativeReward => "reward_amount must be non-negative"@,
            CourseError::CourseNotFound => "Course not found"@,
            CourseError::CourseNotActive => "Course is not active"@,
            CourseError::AlreadyEnrolled => "Learner already enrolled"@,
            CourseError::NotInstructor => "Unauthorized: Caller is not the course instructor"@,
            CourseError::AlreadyCompleted => "Course already completed"@,
            CourseError::RewardPoolRequired => "Completion policy violation: Reward pool required but not configured"@,
            CourseError::BadgeNftRequired => "Completion policy violation: Badge NFT required but not configured"@,
            CourseError::RewardPayoutFailed => "Reward payout failed but required by policy"@,
            CourseError::BadgeMintFailed => "Badge minting failed but required by policy"@,
            CourseError::Overflow => "Arithmetic overflow"@,
        }
    }
}

#[derive(Clone, Copy, Debug, PartialEq, Eq)]
pub struct MetadataUpdated {
    pub id: u32,
    pub instructor: AccountId,
    pub new_hash: [u8; 32],
}

#[derive(Clone, Copy, Debug, PartialEq, Eq)]
pub struct CourseCreated {
    pub id: u32,
    pub instructor: AccountId,
    pub total_modules: u32,
    pub reward_amount: i128,
    pub completion_policy: CompletionPolicy,
}

#[derive(Clone, Copy, Debug, PartialEq, Eq)]
pub struct CourseStatusChanged {
    pub id: u32,
    pub active: bool,
}

#[derive(Clone, Copy, Debug, PartialEq, Eq)]
pub struct OwnershipTransferred {
    pub course_id: u32,
    pub previous_instructor: AccountId,
    pub new_instructor: AccountId,
}

#[derive(Clone, Copy, Debug, PartialEq, Eq)]
pub struct CourseRewardUpdated {
    pub course_id: u32,
    pub old_reward: i128,
    pub new_reward: i128,
}

#[derive(Clone, Copy, Debug, PartialEq, Eq)]
pub struct ModuleCompleted {
    pub learner: AccountId,
    pub course_id: u32,
    pub new_progress: u32,
}

#[derive(Clone, Copy, Debug, PartialEq, Eq)]
pub struct CourseCompleted {
    pub learner: AccountId,
    pub course_id: u32,
    pub reward_amount: i128,
    pub badge_minted: bool,
    pub reward_paid: bool,
    pub policy: CompletionPolicy,
}

#[derive(Clone, Copy, Debug, PartialEq, Eq)]
pub struct ContractUpgraded {
    pub admin: AccountId,
    pub new_wasm_hash: [u8; 32],
}

#[derive(Clone, Copy, Debug, PartialEq, Eq)]
pub struct CompletionPolicyUpdated {
    pub course_id: u32,
    pub old_policy: CompletionPolicy,
    pub new_policy: CompletionPolicy,
    pub updated_by: AccountId,
}

/// The integration whose address an update names.
#[derive(Clone, Copy, Debug, PartialEq, Eq)]
pub enum IntegrationKind {
    RewardPool,
    BadgeNft,
}

impl IntegrationKind {
    /// The name under which the update is announced.
    pub fn name(&self) -> (r: &'static str)
        ensures
            r@ == self.name_text(),
    {
        match self {
            IntegrationKind::RewardPool => "reward_pool",
            IntegrationKind::BadgeNft => "badge_nft",
        }
    }

    /// The name under which the update is announced, as characters.
    pub open spec fn name_text(&self) -> Seq<char> {
        match self {
            IntegrationKind::RewardPool => "reward_pool"@,
            IntegrationKind::BadgeNft => "badge_nft"@,
        }
    }
}

#[derive(Clone, Copy, Debug, PartialEq, Eq)]
pub struct IntegrationAddressUpdated {
    pub course_id: u32,
    pub integration_type: IntegrationKind,
    pub address: Option<AccountId>,
    pub updated_by: AccountId,
}

/// The side effects that finishing a course calls for: a reward payout from the pool
/// and a badge mint, each attempted when the integration is configured (and, for the
/// reward, when it is positive). A failed attempt is tolerated unless the policy
/// requires it.
#[derive(Clone, Copy, Debug, PartialEq, Eq)]
pub struct CompletionPlan {
    pub learner: AccountId,
    pub course_id: u32,
    pub reward_amount: i128,
    pub policy: CompletionPolicy,
    /// The pool asked to pay `reward_amount`, when a payout is attempted.
    pub pay_reward: Option<AccountId>,
    /// The badge contract asked to mint, when a mint is attempted.
    pub mint_badge: Option<AccountId>,
}

/// The result of recording a finished module.
#[derive(Clone, Copy, Debug, PartialEq, Eq)]
pub struct ModuleOutcome {
    pub event: ModuleCompleted,
    /// Present when the module was the course's last.
    pub completion: Option<CompletionPlan>,
}

/// The stored state of the course registry.
pub struct CourseRegistry {
    pub admin: Option<AccountId>,
    /// The number of courses created so far, which is also the latest id.
    pub course_count: u32,
    pub badge_nft: Option<AccountId>,
    pub reward_pool: Option<AccountId>,
    pub courses: Table<u32, Course>,
    /// Completed module counts of enrolled (or progressing) learners.
    pub progress: Table<(AccountId, u32), u32>,
    /// Each course's completion policy, kept beside the course for direct lookup.
    pub policies: Table<u32, CompletionPolicy>,
}

impl CourseRegistry {
    /// A registry that has not been initialized.
    pub fn new() -> (c: CourseRegistry)
        ensures
            c.admin is None,
            c.course_count == 0,
            c.badge_nft is None,
            c.reward_pool is None,
            c.courses@ == Map::<u32, Course>::empty(),
            c.progress@ == Map::<(AccountId, u32), u32>::empty(),
            c.policies@ == Map::<u32, CompletionPolicy>::empty(),
            c.consistent(),
    {
        CourseRegistry {
            admin: None,
            course_count: 0,
            badge_nft: None,
            reward_pool: None,
            courses: Table::new(),
            progress: Table::new(),
            policies: Table::new(),
        }
    }

    /// Records the protocol admin.
    pub fn initialize(&mut self, admin: AccountId) -> (r: Result<(), CourseError>)
        ensures
            old(self).admin is Some ==> r == Err::<(), _>(CourseError::AlreadyInitialized) && *final(self) == *old(self),
            old(self).admin is None ==> r == Ok::<(), CourseError>(()) && final(self).admin == Some(admin),
            final(self).course_count == old(self).course_count,
            final(self).badge_nft == old(self).badge_nft,
            final(self).reward_pool == old(self).reward_pool,
            final(self).courses == old(self).courses,
            final(self).progress == old(self).progress,
            final(self).policies == old(self).policies,
    {
        if self.admin.is_some() {
            return Err(CourseError::AlreadyInitialized);
        }
        self.admin = Some(admin);
        Ok(())
    }

    /// Registers the reward pool that pays completion rewards; admin only.
    pub fn set_reward_pool_address(&mut self, admin: AccountId, reward_pool_address: AccountId) -> (r:
        Result<(), CourseError>)
        ensures
            old(self).admin_check(admin) is Some ==> r == Err::<(), _>(
                old(self).admin_check(admin).unwrap(),
            ) && *final(self) == *old(self),
            old(self).admin_check(admin) is None ==> r == Ok::<(), CourseError>(()) && final(self).reward_pool == Some(reward_pool_address),
            final(self).admin == old(self).admin,
            final(self).course_count == old(self).course_count,
            final(self).badge_nft == old(self).badge_nft,
            final(self).courses == old(self).courses,
            final(self).progress == old(self).progress,
            final(self).policies == old(self).policies,
    {
        self.check_admin(admin)?;
        self.reward_pool = Some(reward_pool_address);
        Ok(())
    }

    /// Registers the badge contract that mints completion badges; admin only.
    pub fn set_badge_nft_address(&mut self, admin: AccountId, badge_nft_address: AccountId) -> (r:
        Result<(), CourseError>)
        ensures
            old(self).admin_check(admin) is Some ==> r == Err::<(), _>(
                old(self).admin_check(admin).unwrap(),
            ) && *final(self) == *old(self),
            old(self).admin_check(admin) is None ==> r == Ok::<(), CourseError>(()) && final(self).badge_nft == Some(badge_nft_address),
            final(self).admin == old(self).admin,
            final(self).course_count == old(self).course_count,
            final(self).reward_pool == old(self).reward_pool,
            final(self).courses == old(self).courses,
            final(self).progress == old(self).progress,
            final(self).policies == old(self).policies,
    {
        self.check_admin(admin)?;
        self.badge_nft = Some(badge_nft_address);
        Ok(())
    }

    /// Changes a course's completion policy; admin only.
    pub fn set_completion_policy(
        &mut self,
        admin: AccountId,
        course_id: u32,
        new_policy: CompletionPolicy,
    ) -> (r: Result<CompletionPolicyUpdated, CourseError>)
        ensures
            old(self).admin_check(admin) is Some ==> r == Err::<CompletionPolicyUpdated, _>(
                old(self).admin_check(admin).unwrap(),
            ),
            old(self).admin_check(admin) is None && !old(self).courses@.contains_key(course_id)
                ==> r == Err::<CompletionPolicyUpdated, _>(CourseError::CourseNotFound),
            old(self).admin_check(admin) is None && old(self).courses@.contains_key(course_id) ==> {
                let c = old(self).courses@[course_id];
                &&& r == Ok::<_, CourseError>(
                    CompletionPolicyUpdated {
                        course_id,
                        old_policy: c.completion_policy,
                        new_policy,
                        updated_by: admin,
                    },
                )
                &&& final(self).courses@ == old(self).courses@.insert(
                    course_id,
                    Course { completion_policy: new_policy, ..c },
                )
                &&& final(self).policies@ == old(self).policies@.insert(course_id, new_policy)
            },
            r is Err ==> *final(self) == *old(self),
            final(self).same_but_courses(old(self)),
            old(self).consistent() ==> final(self).consistent(),
    {
        self.check_admin(admin)?;
        let course = self.find_course(course_id)?;
        let old_policy = course.completion_policy;
        self.courses.insert(course_id, Course { completion_policy: new_policy, ..course });
        self.policies.insert(course_id, new_policy);
        proof {
            if old(self).consistent() {
                assert forall|k: (AccountId, u32)| #[trigger]
                    self.progress@.contains_key(k) implies self.courses@.contains_key(k.1)
                    && self.progress@[k] <= self.courses@[k.1].total_modules by {
                    assert(old(self).progress@.contains_key(k));
                }
            }
        }
        Ok(CompletionPolicyUpdated { course_id, old_policy, new_policy, updated_by: admin })
    }

    /// The course's completion policy; the default policy when none is stored.
    pub fn get_completion_policy(&self, course_id: u32) -> (r: CompletionPolicy)
        ensures
            r == (if self.policies@.contains_key(course_id) {
                self.policies@[course_id]
            } else {
                CompletionPolicy::Optional
            }),
    {
        match self.policies.get(&course_id) {
            Some(p) => *p,
            None => CompletionPolicy::default(),
        }
    }

    /// Enrolls a learner in an active course with no modules completed.
    pub fn enroll(&mut self, learner: AccountId, id: u32) -> (r: Result<(), CourseError>)
        ensures
            !old(self).courses@.contains_key(id) ==> r == Err::<(), _>(CourseError::CourseNotFound),
            old(self).courses@.contains_key(id) && !old(self).courses@[id].active ==> r == Err::<
                (),
                _,
            >(CourseError::CourseNotActive),
            old(self).courses@.contains_key(id) && old(self).courses@[id].active && old(self).progress@.contains_key((learner, id)) ==> r == Err::<(), _>(
                CourseError::AlreadyEnrolled,
            ),
            old(self).courses@.contains_key(id) && old(self).courses@[id].active && !old(self).progress@.contains_key((learner, id)) ==> r == Ok::<(), CourseError>(()) && final(self).progress@ == old(self).progress@.insert((learner, id), 0),
            r is Err ==> *final(self) == *old(self),
            final(self).admin == old(self).admin,
            final(self).course_count == old(self).course_count,
            final(self).badge_nft == old(self).badge_nft,
            final(self).reward_pool == old(self).reward_pool,
            final(self).courses == old(self).courses,
            final(self).policies == old(self).policies,
            old(self).consistent() ==> final(self).consistent(),
    {
        let course = self.find_course(id)?;
        if !course.active {
            return Err(CourseError::CourseNotActive);
        }
        if self.progress.contains_key(&(learner, id)) {
            return Err(CourseError::AlreadyEnrolled);
        }
        self.progress.insert((learner, id), 0);
        Ok(())
    }

    /// The number of courses created so far.
    pub fn course_count(&self) -> (r: u32)
        ensures
            r == self.course_count,
    {
        self.course_count
    }

    /// Activates or deactivates a course; admin only. Deactivated courses stay stored.
    pub fn set_course_status(&mut self, admin: AccountId, id: u32, active: bool) -> (r: Result<
        CourseStatusChanged,
        CourseError,
    >)
        ensures
            old(self).admin_check(admin) is Some ==> r == Err::<CourseStatusChanged, _>(
                old(self).admin_check(admin).unwrap(),
            ),
            old(self).admin_check(admin) is None && !old(self).courses@.contains_key(id) ==> r
                == Err::<CourseStatusChanged, _>(CourseError::CourseNotFound),
            old(self).admin_check(admin) is None && old(self).courses@.contains_key(id) ==> r
                == Ok::<_, CourseError>(CourseStatusChanged { id, active }) && final(self).courses@ == old(self).courses@.insert(id, Course { active, ..old(self).courses@[id] }),
            r is Err ==> *final(self) == *old(self),
            final(self).same_but_courses(old(self)),
            final(self).policies == old(self).policies,
            old(self).consistent() ==> final(self).consistent(),
    {
        self.check_admin(admin)?;
        let course = self.find_course(id)?;
        self.courses.insert(id, Course { active, ..course });
        proof {
            if old(self).consistent() {
                assert forall|k: (AccountId, u32)| #[trigger]
                    self.progress@.contains_key(k) implies self.courses@.contains_key(k.1)
                    && self.progress@[k] <= self.courses@[k.1].total_modules by {
                    assert(old(self).progress@.contains_key(k));
                }
            }
        }
        Ok(CourseStatusChanged { id, active })
    }

    /// Changes a course's completion reward; admin only, and never below zero.
    pub fn update_course_reward(&mut self, admin: AccountId, id: u32, new_reward_amount: i128) -> (r:
        Result<CourseRewardUpdated, CourseError>)
        ensures
            old(self).admin_check(admin) is Some ==> r == Err::<CourseRewardUpdated, _>(
                old(self).admin_check(admin).unwrap(),
            ),
            old(self).admin_check(admin) is None && new_reward_amount < 0 ==> r == Err::<
                CourseRewardUpdated,
                _,
            >(CourseError::NegativeReward),
            old(self).admin_check(admin) is None && new_reward_amount >= 0 && !old(self).courses@.contains_key(id) ==> r == Err::<CourseRewardUpdated, _>(
                CourseError::CourseNotFound,
            ),
            old(self).admin_check(admin) is None && new_reward_amount >= 0 && old(self).courses@.contains_key(id) ==> {
                let c = old(self).courses@[id];
                &&& r == Ok::<_, CourseError>(
                    CourseRewardUpdated {
                        course_id: id,
                        old_reward: c.reward_amount,
                        new_reward: new_reward_amount,
                    },
                )
                &&& final(self).courses@ == old(self).courses@.insert(
                    id,
                    Course { reward_amount: new_reward_amount, ..c },
                )
            },
            r is Err ==> *final(self) == *old(self),
            final(self).same_but_courses(old(self)),
            final(self).policies == old(self).policies,
            old(self).consistent() ==> final(self).consistent(),
    {
        self.check_admin(admin)?;
        if new_reward_amount < 0 {
            return Err(CourseError::NegativeReward);
        }
        let course = self.find_course(id)?;
        let old_reward = course.reward_amount;
        self.courses.insert(id, Course { reward_amount: new_reward_amount, ..course });
        proof {
            if old(self).consistent() {
                assert forall|k: (AccountId, u32)| #[trigger]
                    self.progress@.contains_key(k) implies self.courses@.contains_key(k.1)
                    && self.progress@[k] <= self.courses@[k.1].total_modules by {
                    assert(old(self).progress@.contains_key(k));
                }
            }
        }
        Ok(CourseRewardUpdated { course_id: id, old_reward, new_reward: new_reward_amount })
    }

    /// Whether the learner has completed every module of the course.
    pub fn is_course_finished(&self, learner: AccountId, id: u32) -> (r: Result<bool, CourseError>)
        ensures
            !self.courses@.contains_key(id) ==> r == Err::<bool, _>(CourseError::CourseNotFound),
            self.courses@.contains_key(id) ==> r == Ok::<_, CourseError>(
                self.progress_of(learner, id) >= self.courses@[id].total_modules,
            ),
    {
        let course = self.find_course(id)?;
        let progress = self.get_progress(learner, id);
        Ok(progress >= course.total_modules)
    }

    /// The course stored under the id.
    pub fn get_course(&self, id: u32) -> (r: Result<Course, CourseError>)
        ensures
            !self.courses@.contains_key(id) ==> r == Err::<Course, _>(CourseError::CourseNotFound),
            self.courses@.contains_key(id) ==> r == Ok::<_, CourseError>(self.courses@[id]),
    {
        self.find_course(id)
    }

    /// The learner's completed module count; zero for a learner who has not enrolled.
    pub fn get_progress(&self, learner: AccountId, id: u32) -> (r: u32)
        ensures
            r == self.progress_of(learner, id),
    {
        match self.progress.get(&(learner, id)) {
            Some(p) => *p,
            None => 0,
        }
    }

    /// Hands a course to a new instructor; only the current instructor may.
    pub fn transfer_ownership(
        &mut self,
        current_instructor: AccountId,
        new_instructor: AccountId,
        course_id: u32,
    ) -> (r: Result<OwnershipTransferred, CourseError>)
        ensures
            !old(self).courses@.contains_key(course_id) ==> r == Err::<OwnershipTransferred, _>(
                CourseError::CourseNotFound,
            ),
            old(self).courses@.contains_key(course_id) && old(self).courses@[course_id].instructor
                != current_instructor ==> r == Err::<OwnershipTransferred, _>(
                CourseError::NotInstructor,
            ),
            old(self).courses@.contains_key(course_id) && old(self).courses@[course_id].instructor
                == current_instructor ==> r == Ok::<_, CourseError>(
                OwnershipTransferred {
                    course_id,
                    previous_instructor: current_instructor,
                    new_instructor,
                },
            ) && final(self).courses@ == old(self).courses@.insert(
                course_id,
                Course { instructor: new_instructor, ..old(self).courses@[course_id] },
            ),
            r is Err ==> *final(self) == *old(self),
            final(self).same_but_courses(old(self)),
            final(self).policies == old(self).policies,
            old(self).consistent() ==> final(self).consistent(),
    {
        let course = self.find_course(course_id)?;
        if !course.instructor.same_as(&current_instructor) {
            return Err(CourseError::NotInstructor);
        }
        self.courses.insert(course_id, Course { instructor: new_instructor, ..course });
        proof {
            if old(self).consistent() {
                assert forall|k: (AccountId, u32)| #[trigger]
                    self.progress@.contains_key(k) implies self.courses@.contains_key(k.1)
                    && self.progress@[k] <= self.courses@[k.1].total_modules by {
                    assert(old(self).progress@.contains_key(k));
                }
            }
        }
        Ok(
            OwnershipTransferred {
                course_id,
                previous_instructor: current_instructor,
                new_instructor,
            },
        )
    }

    /// Checks that the caller is the admin before a code upgrade.
    pub fn upgrade_contract(&self, admin: AccountId, new_wasm_hash: [u8; 32]) -> (r: Result<
        ContractUpgraded,
        CourseError,
    >)
        ensures
            self.admin is None ==> r == Err::<ContractUpgraded, _>(
                CourseError::UpgradeNotInitialized,
            ),
            self.admin is Some && self.admin != Some(admin) ==> r == Err::<ContractUpgraded, _>(
                CourseError::UpgradeUnauthorized,
            ),
            self.admin == Some(admin) ==> r == Ok::<_, CourseError>(
                ContractUpgraded { admin, new_wasm_hash },
            ),
    {
        match self.admin {
            None => Err(CourseError::UpgradeNotInitialized),
            Some(stored) => if admin.same_as(&stored) {
                Ok(ContractUpgraded { admin, new_wasm_hash })
            } else {
                Err(CourseError::UpgradeUnauthorized)
            },
        }
    }

    /// Checks that the integrations that the course's policy requires are configured.
    pub fn enforce_completion_policy(&self, course: &Course) -> (r: Result<(), CourseError>)
        ensures
            r == (match self.policy_violation(course.completion_policy) {
                Some(e) => Err(e),
                None => Ok(()),
            }),
    {
        match course.completion_policy {
            CompletionPolicy::Optional => {},
            CompletionPolicy::RewardRequired => {
                if self.reward_pool.is_none() {
                    return Err(CourseError::RewardPoolRequired);
                }
            },
            CompletionPolicy::BadgeRequired => {
                if self.badge_nft.is_none() {
                    return Err(CourseError::BadgeNftRequired);
                }
            },
            CompletionPolicy::BothRequired => {
                if self.reward_pool.is_none() {
                    return Err(CourseError::RewardPoolRequired);
                }
                if self.badge_nft.is_none() {
                    return Err(CourseError::BadgeNftRequired);
                }
            },
        }
        Ok(())
    }

    /// The admin check shared by the administrative operations.
    pub open spec fn admin_check(&self, admin: AccountId) -> Option<CourseError> {
        match self.admin {
            None => Some(CourseError::NotInitialized),
            Some(a) => if a == admin {
                None
            } else {
                Some(CourseError::Unauthorized)
            },
        }
    }

    /// The learner's completed module count for the course, zero when none is recorded.
    pub open spec fn progress_of(&self, learner: AccountId, course_id: u32) -> u32 {
        if self.progress@.contains_key((learner, course_id)) {
            self.progress@[(learner, course_id)]
        } else {
            0
        }
    }

    /// The registry's standing consistency: course ids run from 1 to the count, every
    /// course has a module, recorded progress belongs to an existing course and never
    /// exceeds its module count, and the policy table agrees with the courses.
    pub open spec fn consistent(&self) -> bool {
        &&& forall|id: u32| #[trigger]
            self.courses@.contains_key(id) ==> 1 <= id <= self.course_count
                && self.courses@[id].total_modules > 0 && self.policies@.contains_key(id)
                && self.policies@[id] == self.courses@[id].completion_policy
        &&& forall|k: (AccountId, u32)| #[trigger]
            self.progress@.contains_key(k) ==> self.courses@.contains_key(k.1)
                && self.progress@[k] <= self.courses@[k.1].total_modules
    }

    /// Nothing but the courses (and their policies) differs from `other`.
    pub open spec fn same_but_courses(&self, other: &CourseRegistry) -> bool {
        &&& self.admin == other.admin
        &&& self.course_count == other.course_count
        &&& self.badge_nft == other.badge_nft
        &&& self.reward_pool == other.reward_pool
        &&& self.progress == other.progress
    }

    fn check_admin(&self, admin: AccountId) -> (r: Result<(), CourseError>)
        ensures
            r == (match self.admin_check(admin) {
                Some(e) => Err(e),
                None => Ok(()),
            }),
    {
        match self.admin {
            None => Err(CourseError::NotInitialized),
            Some(stored) => if admin.same_as(&stored) {
                Ok(())
            } else {
                Err(CourseError::Unauthorized)
            },
        }
    }

    fn find_course(&self, id: u32) -> (r: Result<Course, CourseError>)
        ensures
            !self.courses@.contains_key(id) ==> r == Err::<Course, _>(CourseError::CourseNotFound),
            self.courses@.contains_key(id) ==> r == Ok::<_, CourseError>(self.courses@[id]),
    {
        match self.courses.get(&id) {
            Some(c) => Ok(*c),
            None => Err(CourseError::CourseNotFound),
        }
    }
}

} // verus!

verus! {

impl CourseRegistry {
    /// Registers a course under the next id; admin only.
    pub fn create_course(
        &mut self,
        admin: AccountId,
        instructor: AccountId,
        total_modules: u32,
        metadata_hash: [u8; 32],
        reward_amount: i128,
        completion_policy: Option<CompletionPolicy>,
    ) -> (r: Result<(u32, CourseCreated), CourseError>)
        ensures
            old(self).admin_check(admin) is Some ==> r == Err::<(u32, CourseCreated), _>(
                old(self).admin_check(admin).unwrap(),
            ),
            old(self).admin_check(admin) is None && total_modules == 0 ==> r == Err::<
                (u32, CourseCreated),
                _,
            >(CourseError::ZeroModules),
            old(self).admin_check(admin) is None && total_modules > 0 && reward_amount < 0 ==> r
                == Err::<(u32, CourseCreated), _>(CourseError::NegativeReward),
            old(self).admin_check(admin) is None && total_modules > 0 && reward_amount >= 0 && old(self).course_count == u32::MAX ==> r == Err::<(u32, CourseCreated), _>(
                CourseError::Overflow,
            ),
            old(self).admin_check(admin) is None && total_modules > 0 && reward_amount >= 0 && old(self).course_count < u32::MAX ==> {
                let id = (old(self).course_count + 1) as u32;
                let policy = match completion_policy {
                    Some(p) => p,
                    None => CompletionPolicy::Optional,
                };
                let course = Course {
                    instructor,
                    total_modules,
                    metadata_hash,
                    active: true,
                    reward_amount,
                    completion_policy: policy,
                };
                &&& r == Ok::<_, CourseError>(
                    (
                        id,
                        CourseCreated {
                            id,
                            instructor,
                            total_modules,
                            reward_amount,
                            completion_policy: policy,
                        },
                    ),
                )
                &&& final(self).course_count == id
                &&& final(self).courses@ == old(self).courses@.insert(id, course)
                &&& final(self).policies@ == old(self).policies@.insert(id, policy)
            },
            r is Err ==> *final(self) == *old(self),
            final(self).admin == old(self).admin,
            final(self).badge_nft == old(self).badge_nft,
            final(self).reward_pool == old(self).reward_pool,
            final(self).progress == old(self).progress,
            old(self).consistent() ==> final(self).consistent(),
    {
        self.check_admin(admin)?;
        if total_modules == 0 {
            return Err(CourseError::ZeroModules);
        }
        if reward_amount < 0 {
            return Err(CourseError::NegativeReward);
        }
        if self.course_count == u32::MAX {
            return Err(CourseError::Overflow);
        }
        let id = self.course_count + 1;
        self.course_count = id;
        let policy = match completion_policy {
            Some(p) => p,
            None => CompletionPolicy::Optional,
        };
        let course = Course {
            instructor,
            total_modules,
            metadata_hash,
            active: true,
            reward_amount,
            completion_policy: policy,
        };
        self.courses.insert(id, course);
        self.policies.insert(id, policy);
        proof {
            if old(self).consistent() {
                assert(!old(self).courses@.contains_key(id));
                assert forall|k: (AccountId, u32)| #[trigger]
                    self.progress@.contains_key(k) implies self.courses@.contains_key(k.1)
                    && self.progress@[k] <= self.courses@[k.1].total_modules by {
                    assert(old(self).progress@.contains_key(k));
                    assert(old(self).courses@.contains_key(k.1));
                }
            }
        }
        Ok(
            (
                id,
                CourseCreated {
                    id,
                    instructor,
                    total_modules,
                    reward_amount,
                    completion_policy: policy,
                },
            ),
        )
    }

    /// Updates the integration addresses that are given; admin only, and the course must
    /// exist. Each update is announced.
    pub fn set_course_integrations(
        &mut self,
        admin: AccountId,
        course_id: u32,
        reward_pool: Option<AccountId>,
        badge_nft: Option<AccountId>,
    ) -> (r: Result<Vec<IntegrationAddressUpdated>, CourseError>)
        ensures
            old(self).admin_check(admin) is Some ==> r == Err::<Vec<IntegrationAddressUpdated>, _>(
                old(self).admin_check(admin).unwrap(),
            ),
            old(self).admin_check(admin) is None && !old(self).courses@.contains_key(course_id)
                ==> r == Err::<Vec<IntegrationAddressUpdated>, _>(CourseError::CourseNotFound),
            old(self).admin_check(admin) is None && old(self).courses@.contains_key(course_id) ==> {
                let reward_events = match reward_pool {
                    Some(a) => seq![
                        IntegrationAddressUpdated {
                            course_id,
                            integration_type: IntegrationKind::RewardPool,
                            address: Some(a),
                            updated_by: admin,
                        },
                    ],
                    None => Seq::empty(),
                };
                let badge_events = match badge_nft {
                    Some(a) => seq![
                        IntegrationAddressUpdated {
                            course_id,
                            integration_type: IntegrationKind::BadgeNft,
                            address: Some(a),
                            updated_by: admin,
                        },
                    ],
                    None => Seq::empty(),
                };
                &&& r is Ok
                &&& r->Ok_0@ == reward_events + badge_events
                &&& final(self).reward_pool == (if reward_pool is Some {
                    reward_pool
                } else {
                    old(self).reward_pool
                })
                &&& final(self).badge_nft == (if badge_nft is Some {
                    badge_nft
                } else {
                    old(self).badge_nft
                })
            },
            r is Err ==> *final(self) == *old(self),
            final(self).admin == old(self).admin,
            final(self).course_count == old(self).course_count,
            final(self).courses == old(self).courses,
            final(self).progress == old(self).progress,
            final(self).policies == old(self).policies,
    {
        self.check_admin(admin)?;
        self.find_course(course_id)?;
        let mut events: Vec<IntegrationAddressUpdated> = Vec::new();
        if let Some(reward) = reward_pool {
            self.reward_pool = Some(reward);
            events.push(
                IntegrationAddressUpdated {
                    course_id,
                    integration_type: IntegrationKind::RewardPool,
                    address: Some(reward),
                    updated_by: admin,
                },
            );
        }
        if let Some(badge) = badge_nft {
            self.badge_nft = Some(badge);
            events.push(
                IntegrationAddressUpdated {
                    course_id,
                    integration_type: IntegrationKind::BadgeNft,
                    address: Some(badge),
                    updated_by: admin,
                },
            );
        }
        proof {
            let reward_events = match reward_pool {
                Some(a) => seq![
                    IntegrationAddressUpdated {
                        course_id,
                        integration_type: IntegrationKind::RewardPool,
                        address: Some(a),
                        updated_by: admin,
                    },
                ],
                None => Seq::empty(),
            };
            let badge_events = match badge_nft {
                Some(a) => seq![
                    IntegrationAddressUpdated {
                        course_id,
                        integration_type: IntegrationKind::BadgeNft,
                        address: Some(a),
                        updated_by: admin,
                    },
                ],
                None => Seq::empty(),
            };
            assert(events@ =~= reward_events + badge_events);
        }
        Ok(events)
    }

    /// Replaces a course's metadata hash. The course's instructor must authorize it; the
    /// event names that instructor.
    pub fn update_metadata(&mut self, id: u32, new_hash: [u8; 32]) -> (r: Result<
        MetadataUpdated,
        CourseError,
    >)
        ensures
            !old(self).courses@.contains_key(id) ==> r == Err::<MetadataUpdated, _>(
                CourseError::CourseNotFound,
            ),
            old(self).courses@.contains_key(id) ==> {
                let c = old(self).courses@[id];
                &&& r == Ok::<_, CourseError>(
                    MetadataUpdated { id, instructor: c.instructor, new_hash },
                )
                &&& final(self).courses@ == old(self).courses@.insert(
                    id,
                    Course { metadata_hash: new_hash, ..c },
                )
            },
            r is Err ==> *final(self) == *old(self),
            final(self).same_but_courses(old(self)),
            final(self).policies == old(self).policies,
            old(self).consistent() ==> final(self).consistent(),
    {
        let course = self.find_course(id)?;
        self.courses.insert(id, Course { metadata_hash: new_hash, ..course });
        proof {
            if old(self).consistent() {
                assert forall|k: (AccountId, u32)| #[trigger]
                    self.progress@.contains_key(k) implies self.courses@.contains_key(k.1)
                    && self.progress@[k] <= self.courses@[k.1].total_modules by {
                    assert(old(self).progress@.contains_key(k));
                }
            }
        }
        Ok(MetadataUpdated { id, instructor: course.instructor, new_hash })
    }
}

} // verus!

verus! {

impl CompletionPlan {
    /// The completion event, given how the side effects went.
    pub fn completed(&self, reward_paid: bool, badge_minted: bool) -> (r: CourseCompleted)
        ensures
            r == (CourseCompleted {
                learner: self.learner,
                course_id: self.course_id,
                reward_amount: self.reward_amount,
                badge_minted,
                reward_paid,
                policy: self.policy,
            }),
    {
        CourseCompleted {
            learner: self.learner,
            course_id: self.course_id,
            reward_amount: self.reward_amount,
            badge_minted,
            reward_paid,
            policy: self.policy,
        }
    }

    /// Settles the reward payout: `succeeded` tells whether the pool paid. A failed payout
    /// aborts the completion when the policy requires the reward.
    pub fn settle_reward(&self, succeeded: bool) -> (r: Result<bool, CourseError>)
        ensures
            succeeded ==> r == Ok::<bool, CourseError>(true),
            !succeeded && self.policy.requires_reward() ==> r == Err::<bool, _>(
                CourseError::RewardPayoutFailed,
            ),
            !succeeded && !self.policy.requires_reward() ==> r == Ok::<bool, CourseError>(false),
    {
        if succeeded {
            return Ok(true);
        }
        match self.policy {
            CompletionPolicy::RewardRequired | CompletionPolicy::BothRequired => Err(
                CourseError::RewardPayoutFailed,
            ),
            _ => Ok(false),
        }
    }

    /// Settles the badge mint: `succeeded` tells whether the badge was minted. A failed mint
    /// aborts the completion when the policy requires the badge.
    pub fn settle_badge(&self, succeeded: bool) -> (r: Result<bool, CourseError>)
        ensures
            succeeded ==> r == Ok::<bool, CourseError>(true),
            !succeeded && self.policy.requires_badge() ==> r == Err::<bool, _>(
                CourseError::BadgeMintFailed,
            ),
            !succeeded && !self.policy.requires_badge() ==> r == Ok::<bool, CourseError>(false),
    {
        if succeeded {
            return Ok(true);
        }
        match self.policy {
            CompletionPolicy::BadgeRequired | CompletionPolicy::BothRequired => Err(
                CourseError::BadgeMintFailed,
            ),
            _ => Ok(false),
        }
    }
}

impl CourseRegistry {
    /// The integration that the policy requires and that is not configured, if any; the
    /// reward pool is checked first.
    pub open spec fn policy_violation(&self, policy: CompletionPolicy) -> Option<CourseError> {
        if policy.requires_reward() && self.reward_pool is None {
            Some(CourseError::RewardPoolRequired)
        } else if policy.requires_badge() && self.badge_nft is None {
            Some(CourseError::BadgeNftRequired)
        } else {
            None
        }
    }

    /// The side effects that finishing the course calls for.
    pub open spec fn plan_for(&self, learner: AccountId, course_id: u32, course: Course) -> CompletionPlan {
        CompletionPlan {
            learner,
            course_id,
            reward_amount: course.reward_amount,
            policy: course.completion_policy,
            pay_reward: if self.reward_pool is Some && course.reward_amount > 0 {
                self.reward_pool
            } else {
                None
            },
            mint_badge: self.badge_nft,
        }
    }

    /// The side effects that finishing the course calls for: a payout of a positive reward
    /// from the configured pool and a mint from the configured badge contract.
    pub fn completion_plan(&self, course: &Course, learner: AccountId, course_id: u32) -> (r:
        CompletionPlan)
        ensures
            r == self.plan_for(learner, course_id, *course),
    {
        let pay_reward = if self.reward_pool.is_some() && course.reward_amount > 0 {
            self.reward_pool
        } else {
            None
        };
        CompletionPlan {
            learner,
            course_id,
            reward_amount: course.reward_amount,
            policy: course.completion_policy,
            pay_reward,
            mint_badge: self.badge_nft,
        }
    }

    /// Records one more completed module for the learner; the admin verifies completions.
    /// Finishing the last module checks the course's policy and yields the completion's
    /// side effects.
    pub fn complete_module(&mut self, verifier: AccountId, learner: AccountId, id: u32) -> (r:
        Result<ModuleOutcome, CourseError>)
        ensures
            old(self).admin_check(verifier) is Some ==> r == Err::<ModuleOutcome, _>(
                old(self).admin_check(verifier).unwrap(),
            ),
            old(self).admin_check(verifier) is None && !old(self).courses@.contains_key(id) ==> r
                == Err::<ModuleOutcome, _>(CourseError::CourseNotFound),
            old(self).admin_check(verifier) is None && old(self).courses@.contains_key(id) ==> {
                let c = old(self).courses@[id];
                let p = old(self).progress_of(learner, id);
                let finishing = p + 1 == c.total_modules;
                &&& p >= c.total_modules ==> r == Err::<ModuleOutcome, _>(
                    CourseError::AlreadyCompleted,
                )
                &&& p < c.total_modules && finishing && old(self).policy_violation(
                    c.completion_policy,
                ) is Some ==> r == Err::<ModuleOutcome, _>(
                    old(self).policy_violation(c.completion_policy).unwrap(),
                )
                &&& p < c.total_modules && !(finishing && old(self).policy_violation(
                    c.completion_policy,
                ) is Some) ==> {
                    &&& r == Ok::<_, CourseError>(
                        ModuleOutcome {
                            event: ModuleCompleted {
                                learner,
                                course_id: id,
                                new_progress: (p + 1) as u32,
                            },
                            completion: if finishing {
                                Some(old(self).plan_for(learner, id, c))
                            } else {
                                None
                            },
                        },
                    )
                    &&& final(self).progress@ == old(self).progress@.insert(
                        (learner, id),
                        (p + 1) as u32,
                    )
                }
            },
            r is Err ==> *final(self) == *old(self),
            final(self).admin == old(self).admin,
            final(self).course_count == old(self).course_count,
            final(self).badge_nft == old(self).badge_nft,
            final(self).reward_pool == old(self).reward_pool,
            final(self).courses == old(self).courses,
            final(self).policies == old(self).policies,
            old(self).consistent() ==> final(self).consistent(),
    {
        self.check_admin(verifier)?;
        let course = self.find_course(id)?;
        let current = self.get_progress(learner, id);
        if current >= course.total_modules {
            return Err(CourseError::AlreadyCompleted);
        }
        let new_progress = current + 1;
        let finishing = new_progress == course.total_modules;
        if finishing {
            self.enforce_completion_policy(&course)?;
        }
        let completion = if finishing {
            Some(self.completion_plan(&course, learner, id))
        } else {
            None
        };
        self.progress.insert((learner, id), new_progress);
        Ok(
            ModuleOutcome {
                event: ModuleCompleted { learner, course_id: id, new_progress },
                completion,
            },
        )
    }
}

} // verus!

verus! {

/// In a consistent registry no learner's progress exceeds the course's module count.
pub proof fn lemma_progress_bounded(reg: CourseRegistry, learner: AccountId, id: u32)
    requires
        reg.consistent(),
        reg.courses@.contains_key(id),
    ensures
        reg.progress_of(learner, id) <= reg.courses@[id].total_modules,
{
    if reg.progress@.contains_key((learner, id)) {
        assert(reg.courses@.contains_key((learner, id).1));
    }
}

/// Once a module completion finishes a course, the learner counts as finished and every
/// further completion of that course is refused: the completion side effects run once.
pub proof fn lemma_course_finishes_once(
    before: CourseRegistry,
    after: CourseRegistry,
    learner: AccountId,
    id: u32,
)
    requires
        before.courses@.contains_key(id),
        before.progress_of(learner, id) + 1 == before.courses@[id].total_modules,
        after.courses == before.courses,
        after.progress@ == before.progress@.insert(
            (learner, id),
            (before.progress_of(learner, id) + 1) as u32,
        ),
    ensures
        after.progress_of(learner, id) == after.courses@[id].total_modules,
        after.progress_of(learner, id) >= after.courses@[id].total_modules,
{
}

/// The completion policy is enforced exactly: an optional course never needs an
/// integration; a course that requires the reward fails without a reward pool; one that
/// requires the badge fails without a badge contract, even when a reward pool is set; and
/// the completion goes through exactly when every required integration is configured.
pub proof fn lemma_policy_enforced_exactly(reg: CourseRegistry, policy: CompletionPolicy)
    ensures
        reg.policy_violation(policy) is None <==> ((policy == CompletionPolicy::RewardRequired
            || policy == CompletionPolicy::BothRequired ==> reg.reward_pool is Some) && (policy
            == CompletionPolicy::BadgeRequired || policy == CompletionPolicy::BothRequired
            ==> reg.badge_nft is Some)),
        policy == CompletionPolicy::Optional ==> reg.policy_violation(policy) is None,
        (policy == CompletionPolicy::RewardRequired || policy == CompletionPolicy::BothRequired)
            && reg.reward_pool is None ==> reg.policy_violation(policy) == Some(
            CourseError::RewardPoolRequired,
        ),
        (policy == CompletionPolicy::BadgeRequired || policy == CompletionPolicy::BothRequired)
            && reg.reward_pool is Some && reg.badge_nft is None ==> reg.policy_violation(policy)
            == Some(CourseError::BadgeNftRequired),
        policy == CompletionPolicy::BadgeRequired && reg.badge_nft is None ==> reg.policy_violation(
            policy,
        ) == Some(CourseError::BadgeNftRequired),
{
}

/// Whatever the policy, finishing a course asks the configured reward pool to pay a
/// positive reward, asks for no payout otherwise, and asks the configured badge contract
/// to mint; the plan names the learner, the course, its reward and its policy.
pub proof fn lemma_plan_pays_whenever_configured(
    reg: CourseRegistry,
    learner: AccountId,
    course_id: u32,
    course: Course,
)
    ensures
        reg.reward_pool is Some && course.reward_amount > 0 ==> reg.plan_for(
            learner,
            course_id,
            course,
        ).pay_reward == reg.reward_pool,
        reg.reward_pool is None || course.reward_amount <= 0 ==> reg.plan_for(
            learner,
            course_id,
            course,
        ).pay_reward is None,
        reg.plan_for(learner, course_id, course).mint_badge == reg.badge_nft,
        reg.plan_for(learner, course_id, course).learner == learner,
        reg.plan_for(learner, course_id, course).course_id == course_id,
        reg.plan_for(learner, course_id, course).reward_amount == course.reward_amount,
        reg.plan_for(learner, course_id, course).policy == course.completion_policy,
{
}

} // verus!
