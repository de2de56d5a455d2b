# learnault

Verified models of the Learnault learning-platform contracts, written in Verus.

- `src/` is the library. Each contract (`stake_vault`, `reward_pool`, `badge_nft`,
  `governance`, `quest_engine`, `course_registry`) is a plain state value whose
  operations return either an error or the effects the host must carry out (token
  transfers, payout and mint requests, events). Every operation states in its
  contract exactly when it fails and what it changes; the laws that relate
  operations are public proof functions beside them. `account` holds addresses as
  strkey bytes, `table` a verified finite map, `ledger` token movements.
- The host's types do not enter the library: addresses are held as their strkey
  bytes, hashes as `[u8; 32]`, the host's vectors (badge lists, tiers, learner lists)
  as `std::vec::Vec`, and each contract's persistent storage as `table::Table`
  entries. `app/` converts between the two when it loads and stores state.
- A quest's escrow is its own: a refund returns the quest's unspent escrow
  (funded minus paid out minus already refunded), never more than the contract holds.
- `app/` holds the on-chain contracts around the library: storage, authorization,
  token clients, cross-contract calls and event publication.
- `tests/` runs the library on concrete scenarios.
