//! Data types of the progress contract.
use vstd::prelude::*;

use crate::scout_access::types::Address;

verus! {

/// A player's level, by its number.
#[derive(Clone, Copy, Debug, PartialEq, Eq, Structural)]
pub struct ProgressLevel {
    pub number: u32,
}

/// A single entry in the immutable progress history.
#[derive(Debug, PartialEq, Eq)]
pub struct ProgressEntry {
    pub player_id: u64,
    pub old_level: ProgressLevel,
    pub new_level: ProgressLevel,
    /// Wallet that triggered the update (validator or scout).
    pub updated_by: Address,
    pub updated_at: u64,
    /// Milestone index from the verification contract that triggered this.
    pub milestone_ref: u32,
    /// Ledger sequence number at the time of the level change.
    pub ledger_sequence: u32,
}

impl Clone for ProgressEntry {
    fn clone(&self) -> (res: Self)
        ensures
            res == *self,
    {
        ProgressEntry {
            player_id: self.player_id,
            old_level: self.old_level,
            new_level: self.new_level,
            updated_by: self.updated_by.clone(),
            updated_at: self.updated_at,
            milestone_ref: self.milestone_ref,
            ledger_sequence: self.ledger_sequence,
        }
    }
}

/// The keys under which the progress contract stores its data.
#[derive(Clone, Copy, Debug, PartialEq, Eq, Structural)]
pub enum DataKey {
    Admin,
    Initialized,
    Paused,
    /// The current `ProgressLevel` of a player.
    PlayerLevel(u64),
    /// The number of history entries of a player.
    HistoryCounter(u64),
    /// A player's history entry, by the player and the entry's index.
    HistoryEntry(u64, u32),
    /// Address of the verification contract (for cross-contract auth checks).
    VerificationContract,
}

} // verus!
