//! An escrow-backed bounty marketplace: clients lock a reward when they post a
//! bounty, workers submit against it, and the client pays one winner out of
//! the escrow. Every operation is a verified transition of a [`ledger::Ledger`].

pub mod address;
pub mod clock;
pub mod deriver;
pub mod errors;
pub mod guard;
pub mod instructions;
pub mod laws;
pub mod ledger;
pub mod program;
pub mod states;

pub use address::Address;
pub use errors::{
    AccountError, ApplicationError, BountyError, ClientError, Error, ProjectError,
    SubmissionError, UserError,
};
pub use instructions::avatar::process_avatar;
pub use instructions::bounty::create_bounty::{create_bounty, create_bounty_resolved};
pub use instructions::bounty::create_submission::{create_submission, create_submission_resolved};
pub use instructions::bounty::delete_bounty::{delete_bounty, delete_bounty_resolved};
pub use instructions::bounty::select_submission::{select_submission, select_submission_resolved};
pub use instructions::bounty::update_bounty::{update_bounty, update_bounty_resolved};
pub use instructions::bounty::{
    CreateBounty, CreateBountyPdas, CreateSubmission, CreateSubmissionPdas, DeleteBounty,
    DeleteBountyPdas, SelectSubmission, SelectSubmissionPdas, UpdateBounty, UpdateBountyPdas,
};
pub use instructions::client::create_client::{create_client, create_client_resolved};
pub use instructions::client::delete_client::{delete_client, delete_client_resolved};
pub use instructions::client::update_client::{update_client, update_client_resolved};
pub use instructions::client::{CreateClient, DeleteClient, UpdateClient};
pub use instructions::user::create_user::{create_user, create_user_resolved};
pub use instructions::user::delete_user::{delete_user, delete_user_resolved};
pub use instructions::user::update_user::{update_user, update_user_resolved};
pub use instructions::user::{CreateUser, DeleteUser, UpdateUser};
pub use ledger::{Account, Ledger, Record};
pub use states::{
    ApplicationStatus, Bounty, BountyStatus, Client, Country, Industries, ProjectStatus, Social,
    Submission, User,
};
