//! The rules of ScoutChain's on-chain contracts, verified with Verus.
//!
//! `scout_access` decides what the scout access contract does: who may
//! subscribe, contact a player or log a trial offer, what it costs, what is
//! stored and for how long. `progress` holds the data types of the progress
//! contract.
pub mod progress;
pub mod scout_access;
