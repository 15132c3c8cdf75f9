//! Operations on client records.

pub mod create_client;
pub mod delete_client;
pub mod update_client;

pub use create_client::CreateClient;
pub use delete_client::DeleteClient;
pub use update_client::UpdateClient;
