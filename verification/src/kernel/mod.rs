//! The kernel: agents, their messages, intents, memory and marketplace.

pub mod agent;
pub mod error;
pub mod intent;
pub mod memory;
pub mod marketplace;
pub mod crypto;
pub mod dispatch;
pub mod registry;
pub mod bus;
pub mod primes;
