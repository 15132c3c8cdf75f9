//! The user record.

use crate::address::Address;
use vstd::prelude::*;

verus! {

/// Profile and running totals of a worker.
#[derive(Clone, Debug, PartialEq, Eq)]
pub struct User {
    /// Wallet whose signature authorizes changes to the record.
    pub authority: Address,
    pub name: String,
    pub email: String,
    pub avatar: String,
    pub bio: String,
    pub skills: Vec<String>,
    pub joined_at: u64,
    /// Sum of the rewards won, in minor units.
    pub earned: u64,
    pub bounties_submitted: u64,
    pub bounties_completed: u64,
    pub bump: u8,
}

} // verus!
