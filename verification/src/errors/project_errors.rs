//! Why an operation on a project was rejected.

use vstd::prelude::*;
use vstd::string::StringExecFns;

verus! {

/// Why an operation on a project was rejected.
#[derive(Clone, Copy, Debug, PartialEq, Eq, Structural)]
pub enum ProjectError {
    /// Project is already closed.
    ProjectAlreadyClosed,
    /// Cannot update project that has applications.
    CannotUpdateWithApplications,
    /// Cannot delete project that has applications.
    CannotDeleteWithApplications,
    /// Project deadline has passed.
    ProjectDeadlinePassed,
    /// Project is not live.
    ProjectNotLive,
    /// Project has already been rewarded.
    ProjectAlreadyRewarded,
    /// Invalid reward amount.
    InvalidRewardAmount,
    /// Invalid deadline.
    InvalidDeadline,
    /// Insufficient SOL balance for reward.
    InsufficientSolBalance,
    /// Project title is empty.
    InvalidProjectTitle,
    /// Project description is empty.
    InvalidProjectDescription,
    /// Project is not accepting applications.
    ProjectNotAcceptingApplications,
    /// User has already applied to this project.
    UserAlreadyApplied,
    /// Project not found.
    ProjectNotFound,
    /// Invalid project status.
    InvalidProjectStatus,
}

impl ProjectError {
    /// Position of the variant in the declaration, counted from zero.
    pub open spec fn index(self) -> nat {
        match self {
            ProjectError::ProjectAlreadyClosed => 0,
            ProjectError::CannotUpdateWithApplications => 1,
            ProjectError::CannotDeleteWithApplications => 2,
            ProjectError::ProjectDeadlinePassed => 3,
            ProjectError::ProjectNotLive => 4,
            ProjectError::ProjectAlreadyRewarded => 5,
            ProjectError::InvalidRewardAmount => 6,
            ProjectError::InvalidDeadline => 7,
            ProjectError::InsufficientSolBalance => 8,
            ProjectError::InvalidProjectTitle => 9,
            ProjectError::InvalidProjectDescription => 10,
            ProjectError::ProjectNotAcceptingApplications => 11,
            ProjectError::UserAlreadyApplied => 12,
            ProjectError::ProjectNotFound => 13,
            ProjectError::InvalidProjectStatus => 14,
        }
    }

    /// The text shown for the error.
    pub open spec fn message_text(self) -> Seq<char> {
        match self {
            ProjectError::ProjectAlreadyClosed => "Project is already closed"@,
            ProjectError::CannotUpdateWithApplications =>
                "Cannot update project that has applications"@,
            ProjectError::CannotDeleteWithApplications =>
                "Cannot delete project that has applications"@,
            ProjectError::ProjectDeadlinePassed => "Project deadline has passed"@,
            ProjectError::ProjectNotLive => "Project is not live"@,
            ProjectError::ProjectAlreadyRewarded => "Project has already been rewarded"@,
            ProjectError::InvalidRewardAmount => "Invalid reward amount"@,
            ProjectError::InvalidDeadline => "Invalid deadline"@,
            ProjectError::InsufficientSolBalance => "Insufficient SOL balance for reward"@,
            ProjectError::InvalidProjectTitle => "Project title is empty"@,
            ProjectError::InvalidProjectDescription => "Project description is empty"@,
            ProjectError::ProjectNotAcceptingApplications =>
                "Project is not accepting applications"@,
            ProjectError::UserAlreadyApplied => "User has already applied to this project"@,
            ProjectError::ProjectNotFound => "Project not found"@,
            ProjectError::InvalidProjectStatus => "Invalid project status"@,
        }
    }

    /// The numeric code of the error: 6000 plus the variant's position.
    pub fn code(&self) -> (r: u32)
        ensures
            r == 6000 + self.index(),
    {
        match self {
            ProjectError::ProjectAlreadyClosed => 6000u32,
            ProjectError::CannotUpdateWithApplications => 6001u32,
            ProjectError::CannotDeleteWithApplications => 6002u32,
            ProjectError::ProjectDeadlinePassed => 6003u32,
            ProjectError::ProjectNotLive => 6004u32,
            ProjectError::ProjectAlreadyRewarded => 6005u32,
            ProjectError::InvalidRewardAmount => 6006u32,
            ProjectError::InvalidDeadline => 6007u32,
            ProjectError::InsufficientSolBalance => 6008u32,
            ProjectError::InvalidProjectTitle => 6009u32,
            ProjectError::InvalidProjectDescription => 6010u32,
            ProjectError::ProjectNotAcceptingApplications => 6011u32,
            ProjectError::UserAlreadyApplied => 6012u32,
            ProjectError::ProjectNotFound => 6013u32,
            ProjectError::InvalidProjectStatus => 6014u32,
        }
    }

    /// The text shown for the error.
    pub fn message(&self) -> (r: String)
        ensures
            r@ == self.message_text(),
    {
        match self {
            ProjectError::ProjectAlreadyClosed => String::from_str("Project is already closed"),
            ProjectError::CannotUpdateWithApplications => String::from_str(
                "Cannot update project that has applications",
            ),
            ProjectError::CannotDeleteWithApplications => String::from_str(
                "Cannot delete project that has applications",
            ),
            ProjectError::ProjectDeadlinePassed => String::from_str("Project deadline has passed"),
            ProjectError::ProjectNotLive => String::from_str("Project is not live"),
            ProjectError::ProjectAlreadyRewarded => String::from_str(
                "Project has already been rewarded",
            ),
            ProjectError::InvalidRewardAmount => String::from_str("Invalid reward amount"),
            ProjectError::InvalidDeadline => String::from_str("Invalid deadline"),
            ProjectError::InsufficientSolBalance => String::from_str(
                "Insufficient SOL balance for reward",
            ),
            ProjectError::InvalidProjectTitle => String::from_str("Project title is empty"),
            ProjectError::InvalidProjectDescription => String::from_str(
                "Project description is empty",
            ),
            ProjectError::ProjectNotAcceptingApplications => String::from_str(
                "Project is not accepting applications",
            ),
            ProjectError::UserAlreadyApplied => String::from_str(
                "User has already applied to this project",
            ),
            ProjectError::ProjectNotFound => String::from_str("Project not found"),
            ProjectError::InvalidProjectStatus => String::from_str("Invalid project status"),
        }
    }
}

} // verus!
