use vstd::prelude::*;

use crate::account::AccountId;
use crate::table::Table;

verus! {

/// A badge as the badge contract reports it; each badge held is one vote of weight.
#[derive(Clone, Copy, Debug, PartialEq, Eq)]
pub struct Badge {
    pub course_id: u32,
    pub minted_at: u64,
}

/// A governance proposal.
#[derive(Clone, Copy, Debug, PartialEq, Eq)]
pub struct Proposal {
    pub id: u32,
    pub proposer: AccountId,
    pub metadata_hash: [u8; 32],
    pub votes_for: u32,
    pub votes_against: u32,
    pub end_time: u64,
    pub executed: bool,
}

/// Why a governance operation was refused.
#[derive(Clone, Copy, Debug, PartialEq, Eq)]
pub enum GovernanceError {
    AlreadyInitialized,
    NotInitialized,
    BadgeContractNotSet,
    Unauthorized,
    ProposalNotFound,
    AlreadyVoted,
    VoteOverflow,
    VotingEnded,
    VotingActive,
    ProposalRejected,
    AlreadyExecuted,
    Overflow,
}

impl GovernanceError {
    /// The text with which the contract aborts.
    pub fn message(&self) -> (r: &'static str)
        ensures
            r@ == self.message_text(),
    {
        match self {
            GovernanceError::AlreadyInitialized => "Already initialized",
            GovernanceError::NotInitialized => "Not initialized",
            GovernanceError::BadgeContractNotSet => "Contract not initialized",
            GovernanceError::Unauthorized => "Unauthorized",
            GovernanceError::ProposalNotFound => "Proposal not found",
            GovernanceError::AlreadyVoted => "Already voted",
            GovernanceError::VoteOverflow => "Vote overflow",
            GovernanceError::VotingEnded => "Voting ended",
            GovernanceError::VotingActive => "Voting still active",
            GovernanceError::ProposalRejected => "Proposal rejected",
            GovernanceError::AlreadyExecuted => "Already executed",
            GovernanceError::Overflow => "Arithmetic overflow",
        }
    }

    /// The text with which the contract aborts, as characters.
    pub open spec fn message_text(&self) -> Seq<char> {
        match self {
            GovernanceError::AlreadyInitialized => "Already initialized"@,
            GovernanceError::NotInitialized => "Not initialized"@,
            GovernanceError::BadgeContractNotSet => "Contract not initialized"@,
            GovernanceError::Unauthorized => "Unauthorized"@,
            GovernanceError::ProposalNotFound => "Proposal not found"@,
            GovernanceError::AlreadyVoted => "Already voted"@,
            GovernanceError::VoteOverflow => "Vote overflow"@,
            GovernanceError::VotingEnded => "Voting ended"@,
            GovernanceError::VotingActive => "Voting still active"@,
            GovernanceError::ProposalRejected => "Proposal rejected"@,
            GovernanceError::AlreadyExecuted => "Already executed"@,
            GovernanceError::Overflow => "Arithmetic overflow"@,
        }
    }
}

#[derive(Clone, Copy, Debug, PartialEq, Eq)]
pub struct ProposalCreated {
    pub proposal_id: u32,
    pub proposer: AccountId,
}

#[derive(Clone, Copy, Debug, PartialEq, Eq)]
pub struct ProposalExecuted {
    pub proposal_id: u32,
    pub proposer: AccountId,
}

#[derive(Clone, Copy, Debug, PartialEq, Eq)]
pub struct ProposalCancelled {
    pub proposal_id: u32,
    pub cancelled_by: AccountId,
}

#[derive(Clone, Copy, Debug, PartialEq, Eq)]
pub struct ContractUpgraded {
    pub admin: AccountId,
    pub new_wasm_hash: [u8; 32],
}

/// The stored state of the governance contract.
pub struct Governance {
    pub admin: Option<AccountId>,
    /// The badge contract whose badges weigh the votes.
    pub badge_contract: Option<AccountId>,
    /// The number of proposals created so far, which is also the latest id.
    pub proposal_count: u32,
    pub proposals: Table<u32, Proposal>,
    /// The (voter, proposal) pairs that have voted.
    pub votes: Table<(AccountId, u32), bool>,
}

/// The proposal after a vote of the given weight for or against it.
pub open spec fn tallied(p: Proposal, support: bool, weight: int) -> Proposal {
    if support {
        Proposal { votes_for: (p.votes_for + weight) as u32, ..p }
    } else {
        Proposal { votes_against: (p.votes_against + weight) as u32, ..p }
    }
}

impl Governance {
    /// A governance contract that has not been initialized.
    pub fn new() -> (g: Governance)
        ensures
            g.admin is None,
            g.badge_contract is None,
            g.proposal_count == 0,
            g.proposals@ == Map::<u32, Proposal>::empty(),
            g.votes@ == Map::<(AccountId, u32), bool>::empty(),
    {
        Governance {
            admin: None,
            badge_contract: None,
            proposal_count: 0,
            proposals: Table::new(),
            votes: Table::new(),
        }
    }

    /// Records the admin and the badge contract.
    pub fn initialize(&mut self, admin: AccountId, badge_contract: AccountId) -> (r: Result<
        (),
        GovernanceError,
    >)
        ensures
            old(self).badge_contract is Some ==> r == Err::<(), _>(
                GovernanceError::AlreadyInitialized,
            ) && *final(self) == *old(self),
            old(self).badge_contract is None ==> r == Ok::<(), GovernanceError>(()) && final(self).admin == Some(admin) && final(self).badge_contract == Some(badge_contract) && final(self).proposal_count == old(self).proposal_count && final(self).proposals == old(self).proposals && final(self).votes == old(self).votes,
    {
        if self.badge_contract.is_some() {
            return Err(GovernanceError::AlreadyInitialized);
        }
        self.admin = Some(admin);
        self.badge_contract = Some(badge_contract);
        Ok(())
    }

    /// Opens a proposal under the next id.
    pub fn create_proposal(&mut self, proposer: AccountId, metadata_hash: [u8; 32], end_time: u64) -> (r:
        Result<(u32, ProposalCreated), GovernanceError>)
        ensures
            old(self).proposal_count == u32::MAX ==> r == Err::<(u32, ProposalCreated), _>(
                GovernanceError::Overflow,
            ) && *final(self) == *old(self),
            old(self).proposal_count < u32::MAX ==> {
                let id = (old(self).proposal_count + 1) as u32;
                &&& r == Ok::<_, GovernanceError>((id, ProposalCreated { proposal_id: id, proposer }))
                &&& final(self).proposal_count == id
                &&& final(self).proposals@ == old(self).proposals@.insert(
                    id,
                    Proposal {
                        id,
                        proposer,
                        metadata_hash,
                        votes_for: 0,
                        votes_against: 0,
                        end_time,
                        executed: false,
                    },
                )
                &&& final(self).votes == old(self).votes
                &&& final(self).admin == old(self).admin
                &&& final(self).badge_contract == old(self).badge_contract
            },
    {
        if self.proposal_count == u32::MAX {
            return Err(GovernanceError::Overflow);
        }
        let id = self.proposal_count + 1;
        self.proposal_count = id;
        self.proposals.insert(
            id,
            Proposal {
                id,
                proposer,
                metadata_hash,
                votes_for: 0,
                votes_against: 0,
                end_time,
                executed: false,
            },
        );
        Ok((id, ProposalCreated { proposal_id: id, proposer }))
    }

    /// The proposal stored under the id.
    pub fn get_proposal(&self, proposal_id: u32) -> (r: Result<Proposal, GovernanceError>)
        ensures
            !self.proposals@.contains_key(proposal_id) ==> r == Err::<Proposal, _>(
                GovernanceError::ProposalNotFound,
            ),
            self.proposals@.contains_key(proposal_id) ==> r == Ok::<_, GovernanceError>(
                self.proposals@[proposal_id],
            ),
    {
        match self.proposals.get(&proposal_id) {
            Some(p) => Ok(*p),
            None => Err(GovernanceError::ProposalNotFound),
        }
    }

    /// Records a vote whose weight is the number of badges the voter holds.
    pub fn cast_vote(
        &mut self,
        voter: AccountId,
        proposal_id: u32,
        support: bool,
        voter_badges: &Vec<Badge>,
    ) -> (r: Result<(), GovernanceError>)
        requires
            voter_badges.len() <= u32::MAX,
        ensures
            old(self).has_voted(voter, proposal_id) ==> r == Err::<(), _>(
                GovernanceError::AlreadyVoted,
            ),
            !old(self).has_voted(voter, proposal_id) && old(self).badge_contract is None ==> r
                == Err::<(), _>(GovernanceError::BadgeContractNotSet),
            !old(self).has_voted(voter, proposal_id) && old(self).badge_contract is Some && !old(self).proposals@.contains_key(proposal_id) ==> r == Err::<(), _>(
                GovernanceError::ProposalNotFound,
            ),
            !old(self).has_voted(voter, proposal_id) && old(self).badge_contract is Some && old(self).proposals@.contains_key(proposal_id) ==> {
                let p = old(self).proposals@[proposal_id];
                let tally = if support {
                    p.votes_for
                } else {
                    p.votes_against
                };
                &&& tally + voter_badges.len() > u32::MAX ==> r == Err::<(), _>(
                    GovernanceError::VoteOverflow,
                )
                &&& tally + voter_badges.len() <= u32::MAX ==> r == Ok::<(), GovernanceError>(())
                    && final(self).proposals@ == old(self).proposals@.insert(
                    proposal_id,
                    tallied(p, support, voter_badges.len() as int),
                ) && final(self).votes@ == old(self).votes@.insert((voter, proposal_id), true)
            },
            r is Err ==> *final(self) == *old(self),
            final(self).admin == old(self).admin,
            final(self).badge_contract == old(self).badge_contract,
            final(self).proposal_count == old(self).proposal_count,
    {
        if self.votes.contains_key(&(voter, proposal_id)) {
            return Err(GovernanceError::AlreadyVoted);
        }
        if self.badge_contract.is_none() {
            return Err(GovernanceError::BadgeContractNotSet);
        }
        let weight = voter_badges.len() as u32;
        let mut proposal = self.get_proposal(proposal_id)?;
        if support {
            proposal.votes_for = match proposal.votes_for.checked_add(weight) {
                Some(v) => v,
                None => {
                    return Err(GovernanceError::VoteOverflow);
                },
            };
        } else {
            proposal.votes_against = match proposal.votes_against.checked_add(weight) {
                Some(v) => v,
                None => {
                    return Err(GovernanceError::VoteOverflow);
                },
            };
        }
        self.proposals.insert(proposal_id, proposal);
        self.votes.insert((voter, proposal_id), true);
        Ok(())
    }

    /// Checks that the caller is the admin before a code upgrade.
    pub fn upgrade_contract(&self, admin: AccountId, new_wasm_hash: [u8; 32]) -> (r: Result<
        ContractUpgraded,
        GovernanceError,
    >)
        ensures
            self.admin is None ==> r == Err::<ContractUpgraded, _>(GovernanceError::NotInitialized),
            self.admin is Some && self.admin != Some(admin) ==> r == Err::<ContractUpgraded, _>(
                GovernanceError::Unauthorized,
            ),
            self.admin == Some(admin) ==> r == Ok::<_, GovernanceError>(
                ContractUpgraded { admin, new_wasm_hash },
            ),
    {
        match self.admin {
            None => Err(GovernanceError::NotInitialized),
            Some(stored) => if admin.same_as(&stored) {
                Ok(ContractUpgraded { admin, new_wasm_hash })
            } else {
                Err(GovernanceError::Unauthorized)
            },
        }
    }

    /// Withdraws a proposal before its voting ends; the proposer or the admin may.
    pub fn cancel_proposal(&mut self, caller: AccountId, proposal_id: u32, now: u64) -> (r: Result<
        ProposalCancelled,
        GovernanceError,
    >)
        ensures
            !old(self).proposals@.contains_key(proposal_id) ==> r == Err::<ProposalCancelled, _>(
                GovernanceError::ProposalNotFound,
            ),
            old(self).proposals@.contains_key(proposal_id) ==> {
                let p = old(self).proposals@[proposal_id];
                &&& old(self).admin is None ==> r == Err::<ProposalCancelled, _>(
                    GovernanceError::NotInitialized,
                )
                &&& old(self).admin is Some && caller != p.proposer && old(self).admin != Some(caller) ==> r == Err::<ProposalCancelled, _>(GovernanceError::Unauthorized)
                &&& old(self).admin is Some && (caller == p.proposer || old(self).admin == Some(caller)) ==> {
                    &&& now >= p.end_time ==> r == Err::<ProposalCancelled, _>(
                        GovernanceError::VotingEnded,
                    )
                    &&& now < p.end_time && p.executed ==> r == Err::<ProposalCancelled, _>(
                        GovernanceError::AlreadyExecuted,
                    )
                    &&& now < p.end_time && !p.executed ==> r == Ok::<_, GovernanceError>(
                        ProposalCancelled { proposal_id, cancelled_by: caller },
                    ) && final(self).proposals@ == old(self).proposals@.insert(
                        proposal_id,
                        Proposal { executed: true, ..p },
                    )
                }
            },
            r is Err ==> *final(self) == *old(self),
            final(self).admin == old(self).admin,
            final(self).badge_contract == old(self).badge_contract,
            final(self).proposal_count == old(self).proposal_count,
            final(self).votes == old(self).votes,
    {
        let mut proposal = self.get_proposal(proposal_id)?;
        let stored_admin = match self.admin {
            Some(a) => a,
            None => {
                return Err(GovernanceError::NotInitialized);
            },
        };
        if !(caller.same_as(&proposal.proposer) || caller.same_as(&stored_admin)) {
            return Err(GovernanceError::Unauthorized);
        }
        if !(now < proposal.end_time) {
            return Err(GovernanceError::VotingEnded);
        }
        if proposal.executed {
            return Err(GovernanceError::AlreadyExecuted);
        }
        proposal.executed = true;
        self.proposals.insert(proposal_id, proposal);
        Ok(ProposalCancelled { proposal_id, cancelled_by: caller })
    }

    /// Marks a passed proposal executed once its voting has ended.
    pub fn execute_proposal(&mut self, proposal_id: u32, now: u64) -> (r: Result<
        ProposalExecuted,
        GovernanceError,
    >)
        ensures
            !old(self).proposals@.contains_key(proposal_id) ==> r == Err::<ProposalExecuted, _>(
                GovernanceError::ProposalNotFound,
            ),
            old(self).proposals@.contains_key(proposal_id) ==> {
                let p = old(self).proposals@[proposal_id];
                &&& now <= p.end_time ==> r == Err::<ProposalExecuted, _>(
                    GovernanceError::VotingActive,
                )
                &&& now > p.end_time && p.votes_for <= p.votes_against ==> r == Err::<
                    ProposalExecuted,
                    _,
                >(GovernanceError::ProposalRejected)
                &&& now > p.end_time && p.votes_for > p.votes_against && p.executed ==> r == Err::<
                    ProposalExecuted,
                    _,
                >(GovernanceError::AlreadyExecuted)
                &&& now > p.end_time && p.votes_for > p.votes_against && !p.executed ==> r == Ok::<
                    _,
                    GovernanceError,
                >(ProposalExecuted { proposal_id, proposer: p.proposer }) && final(self).proposals@ == old(self).proposals@.insert(
                    proposal_id,
                    Proposal { executed: true, ..p },
                )
            },
            r is Err ==> *final(self) == *old(self),
            final(self).admin == old(self).admin,
            final(self).badge_contract == old(self).badge_contract,
            final(self).proposal_count == old(self).proposal_count,
            final(self).votes == old(self).votes,
    {
        let mut proposal = self.get_proposal(proposal_id)?;
        if !(now > proposal.end_time) {
            return Err(GovernanceError::VotingActive);
        }
        if !(proposal.votes_for > proposal.votes_against) {
            return Err(GovernanceError::ProposalRejected);
        }
        if proposal.executed {
            return Err(GovernanceError::AlreadyExecuted);
        }
        proposal.executed = true;
        self.proposals.insert(proposal_id, proposal);
        Ok(ProposalExecuted { proposal_id, proposer: proposal.proposer })
    }

    /// Whether the voter has voted on the proposal.
    pub open spec fn has_voted(&self, voter: AccountId, proposal_id: u32) -> bool {
        self.votes@.contains_key((voter, proposal_id))
    }
}

/// A vote adds its weight to exactly one side of the tally and leaves the rest of the
/// proposal as it was.
pub proof fn lemma_vote_moves_one_side(p: Proposal, support: bool, weight: int)
    requires
        0 <= weight,
        p.votes_for + weight <= u32::MAX,
        p.votes_against + weight <= u32::MAX,
    ensures
        tallied(p, support, weight).votes_for + tallied(p, support, weight).votes_against
            == p.votes_for + p.votes_against + weight,
        support ==> tallied(p, support, weight).votes_for == p.votes_for + weight
            && tallied(p, support, weight).votes_against == p.votes_against,
        !support ==> tallied(p, support, weight).votes_against == p.votes_against + weight
            && tallied(p, support, weight).votes_for == p.votes_for,
        tallied(p, support, weight).executed == p.executed,
        tallied(p, support, weight).end_time == p.end_time,
        tallied(p, support, weight).proposer == p.proposer,
{
}

/// Once a vote is recorded, the voter counts as having voted on that proposal, so any
/// further vote of theirs on it is refused; votes on other proposals are unaffected.
pub proof fn lemma_one_vote_per_proposal(
    before: Governance,
    after: Governance,
    voter: AccountId,
    proposal_id: u32,
)
    requires
        after.votes@ == before.votes@.insert((voter, proposal_id), true),
    ensures
        after.has_voted(voter, proposal_id),
        forall|v: AccountId, id: u32| (v, id) != (voter, proposal_id) ==> after.has_voted(v, id)
            == before.has_voted(v, id),
{
}

} // verus!
