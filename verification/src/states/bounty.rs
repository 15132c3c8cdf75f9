//! The bounty record.

use crate::address::{zero_address, Address};
use crate::states::text::{byte_len, check_list_fits, list_fits, stored_len};
use vstd::prelude::*;

verus! {

/// Minor units (lamports) in one whole unit of reward.
pub const MINOR_UNITS_PER_UNIT: u64 = 1_000_000_000;

/// Largest stored size of a bounty title, in bytes.
pub const MAX_TITLE_LEN: usize = 32;

/// Largest stored size of a bounty or submission description, in bytes.
pub const MAX_DESCRIPTION_LEN: usize = 500;

/// Largest number of skills that a bounty lists.
pub const MAX_SKILLS: usize = 10;

/// Largest stored size of one skill, in bytes.
pub const MAX_SKILL_LEN: usize = 32;

/// A paid task posted by a client, with the state of its reward.
#[derive(Clone, Debug, PartialEq, Eq)]
pub struct Bounty {
    /// Wallet of the client who posted the bounty and funds it.
    pub creator_wallet_key: Address,
    /// Address of the client record that owns the bounty.
    pub client_key: Address,
    pub title: String,
    pub description: String,
    /// Reward in whole units.
    pub reward: u64,
    /// Whether the bounty still takes submissions and can be paid out.
    pub live: bool,
    pub created_at: u64,
    /// Last moment, in unix time, at which a submission is accepted.
    pub deadline: u64,
    pub required_skills: Vec<String>,
    pub no_of_submissions: u64,
    /// The winning submission; the zero address until one is selected.
    pub selected_submission: Address,
    /// Wallet of the winner; the zero address until one is selected.
    pub selected_user_wallet_key: Address,
    /// Address of the account that holds the locked reward.
    pub escrow_account: Address,
    pub bounty_rewarded: bool,
    pub bump: u8,
}

impl Bounty {
    /// The reward in minor units.
    pub open spec fn reward_minor_units(self) -> int {
        self.reward * MINOR_UNITS_PER_UNIT
    }

    /// Whether the texts of the bounty fit their storage.
    pub open spec fn fits(self) -> bool {
        &&& byte_len(self.title@) <= MAX_TITLE_LEN
        &&& byte_len(self.description@) <= MAX_DESCRIPTION_LEN
        &&& list_fits(self.required_skills@, MAX_SKILLS as nat, MAX_SKILL_LEN as nat)
    }

    /// What holds of every stored bounty: a rewarded bounty is closed, a
    /// winner is recorded only once rewarded, the reward is positive and can
    /// be expressed in minor units, and the texts fit.
    pub open spec fn wf(self) -> bool {
        &&& self.bounty_rewarded ==> !self.live
        &&& !self.bounty_rewarded ==> self.selected_submission@ == zero_address()
            && self.selected_user_wallet_key@ == zero_address()
        &&& 0 < self.reward
        &&& self.reward_minor_units() <= u64::MAX
        &&& self.fits()
    }

    /// Checks the invariant of a bounty record.
    pub fn is_wf(&self) -> (r: bool)
        ensures
            r == self.wf(),
    {
        let flags_ok = !self.bounty_rewarded || !self.live;
        let winner_ok = self.bounty_rewarded || (self.selected_submission.is_zero()
            && self.selected_user_wallet_key.is_zero());
        let reward_ok = 0 < self.reward && self.reward <= u64::MAX / MINOR_UNITS_PER_UNIT;
        assert(reward_ok == (0 < self.reward && self.reward_minor_units() <= u64::MAX))
            by (nonlinear_arith)
            requires
                reward_ok == (0 < self.reward && self.reward <= u64::MAX / MINOR_UNITS_PER_UNIT),
        ;
        let fits = stored_len(&self.title) <= MAX_TITLE_LEN && stored_len(&self.description)
            <= MAX_DESCRIPTION_LEN && check_list_fits(
            &self.required_skills,
            MAX_SKILLS,
            MAX_SKILL_LEN,
        );
        flags_ok && winner_ok && reward_ok && fits
    }
}

} // verus!
