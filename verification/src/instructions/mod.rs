//! The operations of the marketplace.

pub mod avatar;
pub mod bounty;
pub mod client;
pub mod user;
