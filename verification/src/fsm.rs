//! The swap protocol as a pair of finite state machines.

pub mod state;
pub mod names;
pub mod seller_swap;
pub mod buyer_swap;
pub mod machine;
