//! What the hub ledger is asked to do. The hub gathers the achievements
//! that players earn on the game ledgers, and keeps a register of those
//! ledgers.

use vstd::prelude::*;
use crate::chain::ChainId;

verus! {

/// Marks the interface of the hub ledger.
#[derive(Debug, Clone, Copy, PartialEq, Eq, Structural)]
pub struct RpgHubAbi;

/// The parameters that the hub is set up with.
#[derive(Debug, Clone, Copy, PartialEq, Eq, Structural)]
pub struct HubParameters {
    pub max_achievements: u64,
}

/// An operation that is submitted to the hub.
#[derive(Debug, PartialEq, Eq)]
pub enum HubOperation {
    /// A player earned an achievement on the ledger `chain_id`.
    SubmitAchievement {
        player_id: String,
        achievement_id: String,
        chain_id: ChainId,
        timestamp: u64,
        /// JSON text with the details of the achievement.
        metadata: String,
    },
    /// A game ledger registers with the hub.
    RegisterWorldChain { chain_id: ChainId, world_region: String },
}

/// A message from a game ledger to the hub. Each says what the operation
/// of the same content says.
#[derive(Debug, PartialEq, Eq)]
pub enum HubMessage {
    /// A player earned an achievement on the ledger `chain_id`.
    AchievementSubmitted {
        player_id: String,
        achievement_id: String,
        chain_id: ChainId,
        timestamp: u64,
        metadata: String,
    },
    /// A game ledger registers with the hub.
    WorldChainRegistered { chain_id: ChainId, world_region: String },
}

} // verus!
