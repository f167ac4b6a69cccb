//! The adapter of the secondary chain for BTC.

pub mod client;
pub mod balance;
pub mod api;
