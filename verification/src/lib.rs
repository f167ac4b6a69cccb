//! Core of a cross-chain atomic swap engine between MWC and a BTC-family coin.
//!
//! The crate holds the wallet configuration records, the trade record and its
//! timing rules, the message envelope, the seller and buyer state machines,
//! the secondary-chain adapter and the owner API that drives a trade.

pub mod error;
pub mod text;
pub mod script;
pub mod types;
pub mod swap;
pub mod message;
pub mod fsm;
pub mod laws;
pub mod trades;
pub mod keychain;
pub mod btc;
pub mod wallet;
pub mod owner_swap;
pub mod buyer;
pub mod config;
