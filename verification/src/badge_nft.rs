use vstd::prelude::*;

use crate::account::AccountId;
use crate::table::Table;

verus! {

/// A soulbound course badge.
#[derive(Clone, Copy, Debug, PartialEq, Eq)]
pub struct Badge {
    pub course_id: u32,
    pub minted_at: u64,
}

/// Why a badge operation was refused.
#[derive(Clone, Copy, Debug, PartialEq, Eq)]
pub enum BadgeError {
    AlreadyInitialized,
    NotInitialized,
    Unauthorized,
    DuplicateBadge,
}

impl BadgeError {
    /// The text with which the contract aborts.
    pub fn message(&self) -> (r: &'static str)
        ensures
            r@ == self.message_text(),
    {
        match self {
            BadgeError::AlreadyInitialized => "Already initialized",
            BadgeError::NotInitialized => "Contract not initialized",
            BadgeError::Unauthorized => "Unauthorized: Caller is not the authorized registry",
            BadgeError::DuplicateBadge => "Badge for this course already exists",
        }
    }

    /// The text with which the contract aborts, as characters.
    pub open spec fn message_text(&self) -> Seq<char> {
        match self {
            BadgeError::AlreadyInitialized => "Already initialized"@,
            BadgeError::NotInitialized => "Contract not initialized"@,
            BadgeError::Unauthorized => "Unauthorized: Caller is not the authorized registry"@,
            BadgeError::DuplicateBadge => "Badge for this course already exists"@,
        }
    }
}

#[derive(Clone, Copy, Debug, PartialEq, Eq)]
pub struct BadgeMinted {
    pub learner: AccountId,
    pub course_id: u32,
    pub minted_at: u64,
}

/// The stored state of the badge contract.
pub struct BadgeNFT {
    /// The registry allowed to mint.
    pub admin: Option<AccountId>,
    /// Each learner's badges in the order they were minted.
    pub badges: Table<AccountId, Vec<Badge>>,
}

/// Whether some badge in the list is for the course.
pub open spec fn has_course(list: Seq<Badge>, course_id: u32) -> bool {
    exists|i: int| 0 <= i < list.len() && #[trigger] list[i].course_id == course_id
}

/// No course appears twice in the list.
pub open spec fn courses_distinct(list: Seq<Badge>) -> bool {
    forall|i: int, j: int|
        0 <= i < j < list.len() ==> #[trigger] list[i].course_id != #[trigger] list[j].course_id
}

impl BadgeNFT {
    /// A badge contract that has not been initialized.
    pub fn new() -> (b: BadgeNFT)
        ensures
            b.admin is None,
            forall|l: AccountId| #[trigger] b.badges_of(l) == Seq::<Badge>::empty(),
    {
        BadgeNFT { admin: None, badges: Table::new() }
    }

    /// Records the registry that may mint.
    pub fn initialize(&mut self, admin: AccountId) -> (r: Result<(), BadgeError>)
        ensures
            old(self).admin is Some ==> r == Err::<(), _>(BadgeError::AlreadyInitialized)
                && *final(self) == *old(self),
            old(self).admin is None ==> r == Ok::<(), BadgeError>(()) && final(self).admin == Some(
                admin,
            ) && final(self).badges == old(self).badges,
    {
        if self.admin.is_some() {
            return Err(BadgeError::AlreadyInitialized);
        }
        self.admin = Some(admin);
        Ok(())
    }

    /// Mints the learner's badge for a course; only the registry may, once per course.
    pub fn mint_badge(&mut self, caller: AccountId, learner: AccountId, course_id: u32, now: u64) -> (r:
        Result<BadgeMinted, BadgeError>)
        ensures
            old(self).admin is None ==> r == Err::<BadgeMinted, _>(BadgeError::NotInitialized),
            old(self).admin is Some && old(self).admin != Some(caller) ==> r == Err::<
                BadgeMinted,
                _,
            >(BadgeError::Unauthorized),
            old(self).admin == Some(caller) && has_course(old(self).badges_of(learner), course_id)
                ==> r == Err::<BadgeMinted, _>(BadgeError::DuplicateBadge),
            old(self).admin == Some(caller) && !has_course(old(self).badges_of(learner), course_id)
                ==> r == Ok::<_, BadgeError>(
                BadgeMinted { learner, course_id, minted_at: now },
            ) && final(self).badges_of(learner) == old(self).badges_of(learner).push(
                Badge { course_id, minted_at: now },
            ) && forall|other: AccountId|
                other != learner ==> #[trigger] final(self).badges_of(other) == old(
                    self,
                ).badges_of(other),
            r is Err ==> *final(self) == *old(self),
            final(self).admin == old(self).admin,
    {
        match self.admin {
            None => {
                return Err(BadgeError::NotInitialized);
            },
            Some(stored) => {
                if !caller.same_as(&stored) {
                    return Err(BadgeError::Unauthorized);
                }
            },
        }
        let duplicate = match self.badges.get(&learner) {
            Some(list) => Self::list_has_course(list, course_id),
            None => false,
        };
        if duplicate {
            return Err(BadgeError::DuplicateBadge);
        }
        let mut list = match self.badges.remove(&learner) {
            Some(l) => l,
            None => Vec::new(),
        };
        list.push(Badge { course_id, minted_at: now });
        self.badges.insert(learner, list);
        Ok(BadgeMinted { learner, course_id, minted_at: now })
    }

    /// The learner's badges in minting order.
    pub fn get_badges(&self, learner: AccountId) -> (r: Vec<Badge>)
        ensures
            r@ == self.badges_of(learner),
    {
        match self.badges.get(&learner) {
            Some(list) => copy_badges(list),
            None => Vec::new(),
        }
    }

    /// How many badges the learner holds.
    pub fn get_badge_count(&self, learner: AccountId) -> (r: u32)
        requires
            self.badges_of(learner).len() <= u32::MAX,
        ensures
            r == self.badges_of(learner).len(),
    {
        match self.badges.get(&learner) {
            Some(list) => list.len() as u32,
            None => 0,
        }
    }

    /// Whether the learner holds the badge of the course.
    pub fn has_badge(&self, learner: AccountId, course_id: u32) -> (r: bool)
        ensures
            r == has_course(self.badges_of(learner), course_id),
    {
        match self.badges.get(&learner) {
            Some(list) => Self::list_has_course(list, course_id),
            None => false,
        }
    }

    /// The learner's badges, empty when none were minted.
    pub open spec fn badges_of(&self, learner: AccountId) -> Seq<Badge> {
        if self.badges@.contains_key(learner) {
            self.badges@[learner]@
        } else {
            Seq::empty()
        }
    }

    fn list_has_course(list: &Vec<Badge>, course_id: u32) -> (r: bool)
        ensures
            r == has_course(list@, course_id),
    {
        let mut i: usize = 0;
        while i < list.len()
            invariant
                0 <= i <= list.len(),
                forall|j: int| 0 <= j < i ==> list@[j].course_id != course_id,
            decreases list.len() - i,
        {
            if list[i].course_id == course_id {
                assert(list@[i as int].course_id == course_id);
                return true;
            }
            i = i + 1;
        }
        false
    }
}

fn copy_badges(list: &Vec<Badge>) -> (r: Vec<Badge>)
    ensures
        r@ == list@,
{
    let mut r: Vec<Badge> = Vec::new();
    let mut i: usize = 0;
    while i < list.len()
        invariant
            0 <= i <= list.len(),
            r@ == list@.take(i as int),
        decreases list.len() - i,
    {
        r.push(list[i]);
        i = i + 1;
        assert(r@ =~= list@.take(i as int));
    }
    assert(list@.take(i as int) =~= list@);
    r
}

/// Minting keeps every learner's badges free of duplicate courses, makes the learner
/// hold the new badge, and raises the learner's count by one.
pub proof fn lemma_mint_keeps_courses_distinct(
    before: Seq<Badge>,
    after: Seq<Badge>,
    course_id: u32,
    minted_at: u64,
)
    requires
        courses_distinct(before),
        !has_course(before, course_id),
        after == before.push(Badge { course_id, minted_at }),
    ensures
        courses_distinct(after),
        has_course(after, course_id),
        after.len() == before.len() + 1,
        forall|c: u32| c != course_id ==> has_course(after, c) == has_course(before, c),
{
    assert(after[before.len() as int].course_id == course_id);
    assert forall|i: int, j: int| 0 <= i < j < after.len() implies #[trigger] after[i].course_id
        != #[trigger] after[j].course_id by {
        if j == before.len() {
            assert(before[i].course_id == after[i].course_id);
        } else {
            assert(before[i] == after[i] && before[j] == after[j]);
        }
    }
    assert forall|c: u32| c != course_id implies has_course(after, c) == has_course(before, c) by {
        if has_course(after, c) {
            let i = choose|i: int| 0 <= i < after.len() && #[trigger] after[i].course_id == c;
            assert(before[i].course_id == c);
        }
        if has_course(before, c) {
            let i = choose|i: int| 0 <= i < before.len() && #[trigger] before[i].course_id == c;
            assert(after[i].course_id == c);
        }
    }
}

} // verus!
