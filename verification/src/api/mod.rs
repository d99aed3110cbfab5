//! The gateway: what it answers to the four questions about an account.

pub mod account_age;
pub mod error;
pub mod user;
pub mod vote_token;
