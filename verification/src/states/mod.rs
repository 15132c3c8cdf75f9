//! The records that the ledger stores.

pub mod bounty;
pub mod client;
pub mod enums;
pub mod submission;
pub mod text;
pub mod user;

pub use bounty::Bounty;
pub use client::Client;
pub use enums::{ApplicationStatus, BountyStatus, Country, Industries, ProjectStatus, Social};
pub use submission::Submission;
pub use user::User;
