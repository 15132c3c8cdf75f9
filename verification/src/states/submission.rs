//! The submission record.

use crate::address::Address;
use crate::states::text::byte_len;
use crate::states::text::stored_len;
use vstd::prelude::*;

verus! {

/// Largest stored size of the description of a submission, in bytes.
pub const MAX_SUBMISSION_DESCRIPTION_LEN: usize = 500;

/// Largest stored size of the link to the submitted work, in bytes.
pub const MAX_WORK_URL_LEN: usize = 280;

/// The work that one worker handed in for one bounty.
#[derive(Clone, Debug, PartialEq, Eq)]
pub struct Submission {
    /// Wallet of the worker who submitted.
    pub user_wallet_key: Address,
    /// Address of the worker's user record.
    pub user_key: Address,
    /// Address of the bounty submitted to.
    pub bounty_key: Address,
    pub description: String,
    pub work_url: String,
    pub bump: u8,
}

impl Submission {
    /// What holds of every stored submission: its texts fit.
    pub open spec fn wf(self) -> bool {
        &&& byte_len(self.description@) <= MAX_SUBMISSION_DESCRIPTION_LEN
        &&& byte_len(self.work_url@) <= MAX_WORK_URL_LEN
    }

    /// Checks the invariant of a submission record.
    pub fn is_wf(&self) -> (r: bool)
        ensures
            r == self.wf(),
    {
        stored_len(&self.description) <= MAX_SUBMISSION_DESCRIPTION_LEN && stored_len(
            &self.work_url,
        ) <= MAX_WORK_URL_LEN
    }
}

} // verus!
