//! Why an operation on a submission was rejected.

use vstd::prelude::*;
use vstd::string::StringExecFns;

verus! {

/// Why an operation on a submission was rejected.
#[derive(Clone, Copy, Debug, PartialEq, Eq, Structural)]
pub enum SubmissionError {
    /// Submission already exists.
    SubmissionAlreadyExists,
    /// Submission not found.
    SubmissionNotFound,
    /// Invalid submission for selected user.
    InvalidSubmission,
    /// Submission deadline has passed.
    SubmissionDeadlinePassed,
    /// User does not have required skills for this bounty.
    InsufficientSkills,
    /// Submission description is too long.
    DescriptionTooLong,
    /// Submission link is invalid.
    InvalidSubmissionLink,
    /// User has already submitted for this bounty.
    AlreadySubmitted,
    /// Submission is not for the specified bounty.
    WrongBounty,
}

impl SubmissionError {
    /// Position of the variant in the declaration, counted from zero.
    pub open spec fn index(self) -> nat {
        match self {
            SubmissionError::SubmissionAlreadyExists => 0,
            SubmissionError::SubmissionNotFound => 1,
            SubmissionError::InvalidSubmission => 2,
            SubmissionError::SubmissionDeadlinePassed => 3,
            SubmissionError::InsufficientSkills => 4,
            SubmissionError::DescriptionTooLong => 5,
            SubmissionError::InvalidSubmissionLink => 6,
            SubmissionError::AlreadySubmitted => 7,
            SubmissionError::WrongBounty => 8,
        }
    }

    /// The text shown for the error.
    pub open spec fn message_text(self) -> Seq<char> {
        match self {
            SubmissionError::SubmissionAlreadyExists => "Submission already exists"@,
            SubmissionError::SubmissionNotFound => "Submission not found"@,
            SubmissionError::InvalidSubmission => "Invalid submission for selected user"@,
            SubmissionError::SubmissionDeadlinePassed => "Submission deadline has passed"@,
            SubmissionError::InsufficientSkills =>
                "User does not have required skills for this bounty"@,
            SubmissionError::DescriptionTooLong => "Submission description is too long"@,
            SubmissionError::InvalidSubmissionLink => "Submission link is invalid"@,
            SubmissionError::AlreadySubmitted => "User has already submitted for this bounty"@,
            SubmissionError::WrongBounty => "Submission is not for the specified bounty"@,
        }
    }

    /// The numeric code of the error: 6000 plus the variant's position.
    pub fn code(&self) -> (r: u32)
        ensures
            r == 6000 + self.index(),
    {
        match self {
            SubmissionError::SubmissionAlreadyExists => 6000u32,
            SubmissionError::SubmissionNotFound => 6001u32,
            SubmissionError::InvalidSubmission => 6002u32,
            SubmissionError::SubmissionDeadlinePassed => 6003u32,
            SubmissionError::InsufficientSkills => 6004u32,
            SubmissionError::DescriptionTooLong => 6005u32,
            SubmissionError::InvalidSubmissionLink => 6006u32,
            SubmissionError::AlreadySubmitted => 6007u32,
            SubmissionError::WrongBounty => 6008u32,
        }
    }

    /// The text shown for the error.
    pub fn message(&self) -> (r: String)
        ensures
            r@ == self.message_text(),
    {
        match self {
            SubmissionError::SubmissionAlreadyExists => String::from_str(
                "Submission already exists",
            ),
            SubmissionError::SubmissionNotFound => String::from_str("Submission not found"),
            SubmissionError::InvalidSubmission => String::from_str(
                "Invalid submission for selected user",
            ),
            SubmissionError::SubmissionDeadlinePassed => String::from_str(
                "Submission deadline has passed",
            ),
            SubmissionError::InsufficientSkills => String::from_str(
                "User does not have required skills for this bounty",
            ),
            SubmissionError::DescriptionTooLong => String::from_str(
                "Submission description is too long",
            ),
            SubmissionError::InvalidSubmissionLink => String::from_str(
                "Submission link is invalid",
            ),
            SubmissionError::AlreadySubmitted => String::from_str(
                "User has already submitted for this bounty",
            ),
            SubmissionError::WrongBounty => String::from_str(
                "Submission is not for the specified bounty",
            ),
        }
    }
}

} // verus!
