//! The balance oracle: a portfolio service that values what an account holds.

pub mod openapi;
