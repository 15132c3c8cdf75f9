//! The client record.

use crate::address::Address;
use vstd::prelude::*;

verus! {

/// Profile and running totals of someone who posts bounties.
#[derive(Clone, Debug, PartialEq, Eq)]
pub struct Client {
    /// Wallet whose signature authorizes changes to the record.
    pub authority: Address,
    pub company_name: String,
    pub company_email: String,
    pub company_avatar: String,
    pub company_link: String,
    pub company_bio: String,
    pub joined_at: u64,
    /// Sum of the rewards paid out, in minor units.
    pub rewarded: u64,
    /// Number of bounties posted and not deleted.
    pub bounties_posted: u64,
    pub bump: u8,
}

} // verus!
