//! The decisions of a gateway that answers questions about a blockchain
//! account: how old it is, what it holds on the supported chains, and how much
//! of a named token it holds over all of them.
//!
//! The crate performs no input or output. Each operation is split into what is
//! asked of a store or of an upstream provider, as plain values, and what
//! follows from the answer. Amounts of money and of tokens are carried in a
//! type parameter and combined only through the addition that the caller
//! hands in, so every sum is stated over that addition.

pub mod amount;
pub mod api;
pub mod debank;
pub mod etherscan;
pub mod storage;
pub mod text;
pub mod transport;
