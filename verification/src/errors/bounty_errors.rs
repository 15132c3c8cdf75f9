//! Why an operation on a bounty or its escrow was rejected.

use vstd::prelude::*;
use vstd::string::StringExecFns;

verus! {

/// Why an operation on a bounty or its escrow was rejected.
#[derive(Clone, Copy, Debug, PartialEq, Eq, Structural)]
pub enum BountyError {
    /// Bounty is already closed.
    BountyAlreadyClosed,
    /// Cannot update bounty that has submissions.
    CannotUpdateWithSubmissions,
    /// Cannot delete bounty that has submissions.
    CannotDeleteWithSubmissions,
    /// Bounty deadline has passed.
    BountyDeadlinePassed,
    /// Bounty is not live.
    BountyNotLive,
    /// Bounty has already been rewarded.
    BountyAlreadyRewarded,
    /// Invalid reward amount.
    InvalidRewardAmount,
    /// Invalid deadline.
    InvalidDeadline,
    /// Insufficient SOL balance for reward.
    InsufficientSolBalance,
    /// Escrow account not found.
    EscrowAccountNotFound,
    /// Invalid escrow account.
    InvalidEscrowAccount,
}

impl BountyError {
    /// Position of the variant in the declaration, counted from zero.
    pub open spec fn index(self) -> nat {
        match self {
            BountyError::BountyAlreadyClosed => 0,
            BountyError::CannotUpdateWithSubmissions => 1,
            BountyError::CannotDeleteWithSubmissions => 2,
            BountyError::BountyDeadlinePassed => 3,
            BountyError::BountyNotLive => 4,
            BountyError::BountyAlreadyRewarded => 5,
            BountyError::InvalidRewardAmount => 6,
            BountyError::InvalidDeadline => 7,
            BountyError::InsufficientSolBalance => 8,
            BountyError::EscrowAccountNotFound => 9,
            BountyError::InvalidEscrowAccount => 10,
        }
    }

    /// The text shown for the error.
    pub open spec fn message_text(self) -> Seq<char> {
        match self {
            BountyError::BountyAlreadyClosed => "Bounty is already closed"@,
            BountyError::CannotUpdateWithSubmissions =>
                "Cannot update bounty that has submissions"@,
            BountyError::CannotDeleteWithSubmissions =>
                "Cannot delete bounty that has submissions"@,
            BountyError::BountyDeadlinePassed => "Bounty deadline has passed"@,
            BountyError::BountyNotLive => "Bounty is not live"@,
            BountyError::BountyAlreadyRewarded => "Bounty has already been rewarded"@,
            BountyError::InvalidRewardAmount => "Invalid reward amount"@,
            BountyError::InvalidDeadline => "Invalid deadline"@,
            BountyError::InsufficientSolBalance => "Insufficient SOL balance for reward"@,
            BountyError::EscrowAccountNotFound => "Escrow account not found"@,
            BountyError::InvalidEscrowAccount => "Invalid escrow account"@,
        }
    }

    /// The numeric code of the error: 6000 plus the variant's position.
    pub fn code(&self) -> (r: u32)
        ensures
            r == 6000 + self.index(),
    {
        match self {
            BountyError::BountyAlreadyClosed => 6000u32,
            BountyError::CannotUpdateWithSubmissions => 6001u32,
            BountyError::CannotDeleteWithSubmissions => 6002u32,
            BountyError::BountyDeadlinePassed => 6003u32,
            BountyError::BountyNotLive => 6004u32,
            BountyError::BountyAlreadyRewarded => 6005u32,
            BountyError::InvalidRewardAmount => 6006u32,
            BountyError::InvalidDeadline => 6007u32,
            BountyError::InsufficientSolBalance => 6008u32,
            BountyError::EscrowAccountNotFound => 6009u32,
            BountyError::InvalidEscrowAccount => 6010u32,
        }
    }

    /// The text shown for the error.
    pub fn message(&self) -> (r: String)
        ensures
            r@ == self.message_text(),
    {
        match self {
            BountyError::BountyAlreadyClosed => String::from_str("Bounty is already closed"),
            BountyError::CannotUpdateWithSubmissions => String::from_str(
                "Cannot update bounty that has submissions",
            ),
            BountyError::CannotDeleteWithSubmissions => String::from_str(
                "Cannot delete bounty that has submissions",
            ),
            BountyError::BountyDeadlinePassed => String::from_str("Bounty deadline has passed"),
            BountyError::BountyNotLive => String::from_str("Bounty is not live"),
            BountyError::BountyAlreadyRewarded => String::from_str(
                "Bounty has already been rewarded",
            ),
            BountyError::InvalidRewardAmount => String::from_str("Invalid reward amount"),
            BountyError::InvalidDeadline => String::from_str("Invalid deadline"),
            BountyError::InsufficientSolBalance => String::from_str(
                "Insufficient SOL balance for reward",
            ),
            BountyError::EscrowAccountNotFound => String::from_str("Escrow account not found"),
            BountyError::InvalidEscrowAccount => String::from_str("Invalid escrow account"),
        }
    }
}

} // verus!
