//! Why the ledger itself refused an operation.

use vstd::prelude::*;
use vstd::string::StringExecFns;

verus! {

/// Why the ledger itself refused an operation: the address of a bounty does
/// not resolve, a record does not fit its storage, or a counter is full.
#[derive(Clone, Copy, Debug, PartialEq, Eq, Structural)]
pub enum AccountError {
    /// No address can be derived from the seeds.
    InvalidSeeds,
    /// The bounty address named is not the one derived for it.
    InvalidBountyAccount,
    /// No bounty is stored at the address.
    BountyNotFound,
    /// The address of the bounty is already in use.
    BountyAlreadyExists,
    /// A text or list is longer than its record allows.
    DataTooLarge,
    /// A balance or counter would exceed its range.
    ArithmeticOverflow,
}

impl AccountError {
    /// Position of the variant in the declaration, counted from zero.
    pub open spec fn index(self) -> nat {
        match self {
            AccountError::InvalidSeeds => 0,
            AccountError::InvalidBountyAccount => 1,
            AccountError::BountyNotFound => 2,
            AccountError::BountyAlreadyExists => 3,
            AccountError::DataTooLarge => 4,
            AccountError::ArithmeticOverflow => 5,
        }
    }

    /// The text shown for the error.
    pub open spec fn message_text(self) -> Seq<char> {
        match self {
            AccountError::InvalidSeeds => "No address can be derived from the seeds"@,
            AccountError::InvalidBountyAccount => "Invalid bounty account"@,
            AccountError::BountyNotFound => "Bounty not found"@,
            AccountError::BountyAlreadyExists => "Bounty already exists"@,
            AccountError::DataTooLarge => "Data is too large for its record"@,
            AccountError::ArithmeticOverflow => "Arithmetic overflow"@,
        }
    }

    /// The numeric code of the error: 6000 plus the variant's position.
    pub fn code(&self) -> (r: u32)
        ensures
            r == 6000 + self.index(),
    {
        match self {
            AccountError::InvalidSeeds => 6000u32,
            AccountError::InvalidBountyAccount => 6001u32,
            AccountError::BountyNotFound => 6002u32,
            AccountError::BountyAlreadyExists => 6003u32,
            AccountError::DataTooLarge => 6004u32,
            AccountError::ArithmeticOverflow => 6005u32,
        }
    }

    /// The text shown for the error.
    pub fn message(&self) -> (r: String)
        ensures
            r@ == self.message_text(),
    {
        match self {
            AccountError::InvalidSeeds => String::from_str(
                "No address can be derived from the seeds",
            ),
            AccountError::InvalidBountyAccount => String::from_str("Invalid bounty account"),
            AccountError::BountyNotFound => String::from_str("Bounty not found"),
            AccountError::BountyAlreadyExists => String::from_str("Bounty already exists"),
            AccountError::DataTooLarge => String::from_str("Data is too large for its record"),
            AccountError::ArithmeticOverflow => String::from_str("Arithmetic overflow"),
        }
    }
}

} // verus!
