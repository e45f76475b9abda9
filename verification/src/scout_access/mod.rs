//! The scout access contract: subscriptions, paid contacts and trial offers.
pub mod calls;
pub mod contract;
pub mod env;
pub mod errors;
pub mod events;
pub mod laws;
pub mod model;
pub mod table;
pub mod types;
