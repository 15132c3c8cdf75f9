//! Why an operation on an application to a project was rejected.

use vstd::prelude::*;
use vstd::string::StringExecFns;

verus! {

/// Why an operation on an application to a project was rejected.
#[derive(Clone, Copy, Debug, PartialEq, Eq, Structural)]
pub enum ApplicationError {
    /// Application is already approved.
    ApplicationAlreadyApproved,
    /// Application is already rejected.
    ApplicationAlreadyRejected,
    /// Application is not pending.
    ApplicationNotPending,
    /// Cannot approve application that is not pending.
    CannotApproveNonPending,
    /// Cannot reject application that is not pending.
    CannotRejectNonPending,
    /// Application deadline has passed.
    ApplicationDeadlinePassed,
    /// Application is not found.
    ApplicationNotFound,
    /// Invalid application status.
    InvalidApplicationStatus,
    /// User has already applied to this bounty.
    UserAlreadyApplied,
    /// Bounty is not accepting applications.
    BountyNotAcceptingApplications,
    /// Application fee is insufficient.
    InsufficientApplicationFee,
    /// Application description is too long.
    ApplicationDescriptionTooLong,
    /// Application link is invalid.
    InvalidApplicationLink,
    /// Work is already submitted.
    WorkAlreadySubmitted,
    /// Work is not submitted.
    WorkNotSubmitted,
    /// Work is already approved.
    WorkAlreadyApproved,
    /// Work is already rejected.
    WorkAlreadyRejected,
    /// Work is not approved.
    WorkNotApproved,
    /// Cannot submit work for non-approved application.
    CannotSubmitWorkForNonApprovedApplication,
    /// Work description is too long.
    WorkDescriptionTooLong,
    /// Work link is invalid.
    InvalidWorkLink,
    /// Additional files link is invalid.
    InvalidAdditionalFilesLink,
}

impl ApplicationError {
    /// Position of the variant in the declaration, counted from zero.
    pub open spec fn index(self) -> nat {
        match self {
            ApplicationError::ApplicationAlreadyApproved => 0,
            ApplicationError::ApplicationAlreadyRejected => 1,
            ApplicationError::ApplicationNotPending => 2,
            ApplicationError::CannotApproveNonPending => 3,
            ApplicationError::CannotRejectNonPending => 4,
            ApplicationError::ApplicationDeadlinePassed => 5,
            ApplicationError::ApplicationNotFound => 6,
            ApplicationError::InvalidApplicationStatus => 7,
            ApplicationError::UserAlreadyApplied => 8,
            ApplicationError::BountyNotAcceptingApplications => 9,
            ApplicationError::InsufficientApplicationFee => 10,
            ApplicationError::ApplicationDescriptionTooLong => 11,
            ApplicationError::InvalidApplicationLink => 12,
            ApplicationError::WorkAlreadySubmitted => 13,
            ApplicationError::WorkNotSubmitted => 14,
            ApplicationError::WorkAlreadyApproved => 15,
            ApplicationError::WorkAlreadyRejected => 16,
            ApplicationError::WorkNotApproved => 17,
            ApplicationError::CannotSubmitWorkForNonApprovedApplication => 18,
            ApplicationError::WorkDescriptionTooLong => 19,
            ApplicationError::InvalidWorkLink => 20,
            ApplicationError::InvalidAdditionalFilesLink => 21,
        }
    }

    /// The text shown for the error.
    pub open spec fn message_text(self) -> Seq<char> {
        match self {
            ApplicationError::ApplicationAlreadyApproved => "Application is already approved"@,
            ApplicationError::ApplicationAlreadyRejected => "Application is already rejected"@,
            ApplicationError::ApplicationNotPending => "Application is not pending"@,
            ApplicationError::CannotApproveNonPending =>
                "Cannot approve application that is not pending"@,
            ApplicationError::CannotRejectNonPending =>
                "Cannot reject application that is not pending"@,
            ApplicationError::ApplicationDeadlinePassed => "Application deadline has passed"@,
            ApplicationError::ApplicationNotFound => "Application is not found"@,
            ApplicationError::InvalidApplicationStatus => "Invalid application status"@,
            ApplicationError::UserAlreadyApplied => "User has already applied to this bounty"@,
            ApplicationError::BountyNotAcceptingApplications =>
                "Bounty is not accepting applications"@,
            ApplicationError::InsufficientApplicationFee => "Application fee is insufficient"@,
            ApplicationError::ApplicationDescriptionTooLong =>
                "Application description is too long"@,
            ApplicationError::InvalidApplicationLink => "Application link is invalid"@,
            ApplicationError::WorkAlreadySubmitted => "Work is already submitted"@,
            ApplicationError::WorkNotSubmitted => "Work is not submitted"@,
            ApplicationError::WorkAlreadyApproved => "Work is already approved"@,
            ApplicationError::WorkAlreadyRejected => "Work is already rejected"@,
            ApplicationError::WorkNotApproved => "Work is not approved"@,
            ApplicationError::CannotSubmitWorkForNonApprovedApplication =>
                "Cannot submit work for non-approved application"@,
            ApplicationError::WorkDescriptionTooLong => "Work description is too long"@,
            ApplicationError::InvalidWorkLink => "Work link is invalid"@,
            ApplicationError::InvalidAdditionalFilesLink => "Additional files link is invalid"@,
        }
    }

    /// The numeric code of the error: 6000 plus the variant's position.
    pub fn code(&self) -> (r: u32)
        ensures
            r == 6000 + self.index(),
    {
        match self {
            ApplicationError::ApplicationAlreadyApproved => 6000u32,
            ApplicationError::ApplicationAlreadyRejected => 6001u32,
            ApplicationError::ApplicationNotPending => 6002u32,
            ApplicationError::CannotApproveNonPending => 6003u32,
            ApplicationError::CannotRejectNonPending => 6004u32,
            ApplicationError::ApplicationDeadlinePassed => 6005u32,
            ApplicationError::ApplicationNotFound => 6006u32,
            ApplicationError::InvalidApplicationStatus => 6007u32,
            ApplicationError::UserAlreadyApplied => 6008u32,
            ApplicationError::BountyNotAcceptingApplications => 6009u32,
            ApplicationError::InsufficientApplicationFee => 6010u32,
            ApplicationError::ApplicationDescriptionTooLong => 6011u32,
            ApplicationError::InvalidApplicationLink => 6012u32,
            ApplicationError::WorkAlreadySubmitted => 6013u32,
            ApplicationError::WorkNotSubmitted => 6014u32,
            ApplicationError::WorkAlreadyApproved => 6015u32,
            ApplicationError::WorkAlreadyRejected => 6016u32,
            ApplicationError::WorkNotApproved => 6017u32,
            ApplicationError::CannotSubmitWorkForNonApprovedApplication => 6018u32,
            ApplicationError::WorkDescriptionTooLong => 6019u32,
            ApplicationError::InvalidWorkLink => 6020u32,
            ApplicationError::InvalidAdditionalFilesLink => 6021u32,
        }
    }

    /// The text shown for the error.
    pub fn message(&self) -> (r: String)
        ensures
            r@ == self.message_text(),
    {
        match self {
            ApplicationError::ApplicationAlreadyApproved => String::from_str(
                "Application is already approved",
            ),
            ApplicationError::ApplicationAlreadyRejected => String::from_str(
                "Application is already rejected",
            ),
            ApplicationError::ApplicationNotPending => String::from_str(
                "Application is not pending",
            ),
            ApplicationError::CannotApproveNonPending => String::from_str(
                "Cannot approve application that is not pending",
            ),
            ApplicationError::CannotRejectNonPending => String::from_str(
                "Cannot reject application that is not pending",
            ),
            ApplicationError::ApplicationDeadlinePassed => String::from_str(
                "Application deadline has passed",
            ),
            ApplicationError::ApplicationNotFound => String::from_str("Application is not found"),
            ApplicationError::InvalidApplicationStatus => String::from_str(
                "Invalid application status",
            ),
            ApplicationError::UserAlreadyApplied => String::from_str(
                "User has already applied to this bounty",
            ),
            ApplicationError::BountyNotAcceptingApplications => String::from_str(
                "Bounty is not accepting applications",
            ),
            ApplicationError::InsufficientApplicationFee => String::from_str(
                "Application fee is insufficient",
            ),
            ApplicationError::ApplicationDescriptionTooLong => String::from_str(
                "Application description is too long",
            ),
            ApplicationError::InvalidApplicationLink => String::from_str(
                "Application link is invalid",
            ),
            ApplicationError::WorkAlreadySubmitted => String::from_str("Work is already submitted"),
            ApplicationError::WorkNotSubmitted => String::from_str("Work is not submitted"),
            ApplicationError::WorkAlreadyApproved => String::from_str("Work is already approved"),
            ApplicationError::WorkAlreadyRejected => String::from_str("Work is already rejected"),
            ApplicationError::WorkNotApproved => String::from_str("Work is not approved"),
            ApplicationError::CannotSubmitWorkForNonApprovedApplication => String::from_str(
                "Cannot submit work for non-approved application",
            ),
            ApplicationError::WorkDescriptionTooLong => String::from_str(
                "Work description is too long",
            ),
            ApplicationError::InvalidWorkLink => String::from_str("Work link is invalid"),
            ApplicationError::InvalidAdditionalFilesLink => String::from_str(
                "Additional files link is invalid",
            ),
        }
    }
}

} // verus!
