//! The errors that operations report.

pub mod account_errors;
pub mod application_errors;
pub mod bounty_errors;
pub mod client_errors;
pub mod project_errors;
pub mod submission_errors;
pub mod user_errors;

pub use account_errors::AccountError;
pub use application_errors::ApplicationError;
pub use bounty_errors::BountyError;
pub use client_errors::ClientError;
pub use project_errors::ProjectError;
pub use submission_errors::SubmissionError;
pub use user_errors::UserError;

use vstd::prelude::*;

verus! {

/// Any error of an operation on the ledger.
#[derive(Clone, Copy, Debug, PartialEq, Eq, Structural)]
pub enum Error {
    Bounty(BountyError),
    Client(ClientError),
    User(UserError),
    Submission(SubmissionError),
    Account(AccountError),
}

impl Error {
    /// The text shown for the error.
    pub open spec fn message_text(self) -> Seq<char> {
        match self {
            Error::Bounty(e) => e.message_text(),
            Error::Client(e) => e.message_text(),
            Error::User(e) => e.message_text(),
            Error::Submission(e) => e.message_text(),
            Error::Account(e) => e.message_text(),
        }
    }

    /// The numeric code of the error within its family.
    pub open spec fn code_value(self) -> nat {
        match self {
            Error::Bounty(e) => 6000 + e.index(),
            Error::Client(e) => 6000 + e.index(),
            Error::User(e) => 6000 + e.index(),
            Error::Submission(e) => 6000 + e.index(),
            Error::Account(e) => 6000 + e.index(),
        }
    }

    /// The numeric code of the error within its family.
    pub fn code(&self) -> (r: u32)
        ensures
            r == self.code_value(),
    {
        match self {
            Error::Bounty(e) => e.code(),
            Error::Client(e) => e.code(),
            Error::User(e) => e.code(),
            Error::Submission(e) => e.code(),
            Error::Account(e) => e.code(),
        }
    }

    /// The text shown for the error.
    pub fn message(&self) -> (r: String)
        ensures
            r@ == self.message_text(),
    {
        match self {
            Error::Bounty(e) => e.message(),
            Error::Client(e) => e.message(),
            Error::User(e) => e.message(),
            Error::Submission(e) => e.message(),
            Error::Account(e) => e.message(),
        }
    }
}

} // verus!
