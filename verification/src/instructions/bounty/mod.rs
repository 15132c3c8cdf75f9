//! Operations on bounties and submissions.

pub mod create_bounty;
pub mod create_submission;
pub mod delete_bounty;
pub mod select_submission;
pub mod update_bounty;

pub use create_bounty::{CreateBounty, CreateBountyPdas};
pub use create_submission::{CreateSubmission, CreateSubmissionPdas};
pub use delete_bounty::{DeleteBounty, DeleteBountyPdas};
pub use select_submission::{SelectSubmission, SelectSubmissionPdas};
pub use update_bounty::{UpdateBounty, UpdateBountyPdas};
