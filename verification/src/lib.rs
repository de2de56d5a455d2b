//! Verified models of the Learnault platform contracts: a badge registry, a
//! course registry, proposal voting, a quest escrow, a reward pool and a stake
//! vault. Each contract is a plain state value whose operations are checked
//! against their contracts; the host environment (storage, authorization,
//! token movements, events) is driven from outside the library.

pub mod account;
pub mod table;
pub mod ledger;
pub mod stake_vault;
pub mod reward_pool;
pub mod badge_nft;
pub mod governance;
pub mod quest_engine;
pub mod course_registry;
