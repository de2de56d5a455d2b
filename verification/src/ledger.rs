use vstd::prelude::*;

use crate::account::AccountId;

verus! {

/// One side of a token movement.
#[derive(Clone, Copy, Debug, PartialEq, Eq)]
pub enum Party {
    /// The contract that performs the operation.
    ThisContract,
    /// Any other account or contract.
    Account(AccountId),
}

/// A token movement that an operation asks the host to perform.
#[derive(Clone, Copy, Debug, PartialEq, Eq)]
pub struct Transfer {
    pub token: AccountId,
    pub from: Party,
    pub to: Party,
    pub amount: i128,
}

} // verus!
