//! Operations on user records.

pub mod create_user;
pub mod delete_user;
pub mod update_user;

pub use create_user::CreateUser;
pub use delete_user::DeleteUser;
pub use update_user::UpdateUser;
