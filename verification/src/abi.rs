//! What a game ledger is asked to do: the operations that its own users
//! submit and the messages that other ledgers send to it.

use vstd::prelude::*;
use crate::chain::ChainId;
use crate::state::PlayerData;

verus! {

/// Marks the interface of a game ledger.
#[derive(Debug, Clone, Copy, PartialEq, Eq, Structural)]
pub struct RpgGameAbi;

/// The parameters that a game ledger is set up with.
#[derive(Debug, PartialEq, Eq)]
pub struct Parameters {
    /// The world region that the ledger stands for.
    pub world_region: String,
}

/// The attributes of a player as they travel in operations and messages.
#[derive(Debug, Clone, Copy, PartialEq, Eq, Structural)]
pub struct PlayerState {
    pub health: u64,
    pub max_health: u64,
    pub strength: u64,
    pub wisdomness: u64,
    pub benchpress: u64,
    pub curl: u64,
    pub experience: u64,
    pub level: u64,
}

impl PlayerState {
    /// The same attributes, as the ledger stores them.
    pub open spec fn stored(self) -> PlayerData {
        PlayerData {
            health: self.health,
            max_health: self.max_health,
            strength: self.strength,
            wisdomness: self.wisdomness,
            benchpress: self.benchpress,
            curl: self.curl,
            experience: self.experience,
            level: self.level,
        }
    }

    /// Turns travelling attributes into stored ones.
    pub fn to_data(&self) -> (data: PlayerData)
        ensures
            data == self.stored(),
    {
        PlayerData {
            health: self.health,
            max_health: self.max_health,
            strength: self.strength,
            wisdomness: self.wisdomness,
            benchpress: self.benchpress,
            curl: self.curl,
            experience: self.experience,
            level: self.level,
        }
    }
}

/// An operation that a user submits to the ledger that holds their data.
#[derive(Debug, PartialEq, Eq)]
pub enum RpgGameOperation {
    /// Store a player's attributes.
    SavePlayerState {
        player_id: String,
        health: u64,
        max_health: u64,
        strength: u64,
        wisdomness: u64,
        benchpress: u64,
        curl: u64,
        experience: u64,
        level: u64,
    },
    /// Store a player's inventory, given as JSON text.
    SaveInventory { player_id: String, inventory: String },
    /// Store a player's quest log, given as JSON text.
    SaveQuests { player_id: String, quests: String },
    /// Move a player, with a full snapshot, to another ledger.
    TransferPlayer {
        player_id: String,
        destination_chain: ChainId,
        player_state: PlayerState,
        inventory: String,
        quests: String,
        auth_token: String,
    },
    /// Ask the ledger `chain_id` to take a player into a guild.
    JoinGuild { player_id: String, guild_id: String, chain_id: ChainId },
    /// Record the result of a battle: 0 for a loss, 1 for a draw, 2 for a win.
    RecordBattle {
        battle_id: String,
        player_id: String,
        opponent: String,
        player_result: u64,
        damage_dealt: u64,
        damage_taken: u64,
        experience_gained: u64,
    },
}

/// A message from one game ledger to another.
#[derive(Debug, PartialEq, Eq)]
pub enum RpgGameMessage {
    /// A migrating player with a full snapshot.
    PlayerTransfer {
        player_id: String,
        player_state: PlayerState,
        inventory: String,
        quests: String,
        auth_token: String,
    },
    /// A player asks to join a guild on the receiving ledger.
    GuildJoinRequest { player_id: String, guild_id: String },
    /// The result of a battle, to be recorded on the receiving ledger.
    BattleResult {
        battle_id: String,
        player_id: String,
        opponent: String,
        result: u64,
        damage_dealt: u64,
        damage_taken: u64,
        experience_gained: u64,
    },
}

/// The model of a [`RpgGameMessage`].
pub enum MessageModel {
    PlayerTransfer {
        player_id: Seq<char>,
        player_state: PlayerState,
        inventory: Seq<char>,
        quests: Seq<char>,
        auth_token: Seq<char>,
    },
    GuildJoinRequest { player_id: Seq<char>, guild_id: Seq<char> },
    BattleResult {
        battle_id: Seq<char>,
        player_id: Seq<char>,
        opponent: Seq<char>,
        result: u64,
        damage_dealt: u64,
        damage_taken: u64,
        experience_gained: u64,
    },
}

impl DeepView for RpgGameMessage {
    type V = MessageModel;

    open spec fn deep_view(&self) -> MessageModel {
        match *self {
            RpgGameMessage::PlayerTransfer {
                player_id,
                player_state,
                inventory,
                quests,
                auth_token,
            } => MessageModel::PlayerTransfer {
                player_id: player_id@,
                player_state,
                inventory: inventory@,
                quests: quests@,
                auth_token: auth_token@,
            },
            RpgGameMessage::GuildJoinRequest { player_id, guild_id } => MessageModel::GuildJoinRequest {
                player_id: player_id@,
                guild_id: guild_id@,
            },
            RpgGameMessage::BattleResult {
                battle_id,
                player_id,
                opponent,
                result,
                damage_dealt,
                damage_taken,
                experience_gained,
            } => MessageModel::BattleResult {
                battle_id: battle_id@,
                player_id: player_id@,
                opponent: opponent@,
                result,
                damage_dealt,
                damage_taken,
                experience_gained,
            },
        }
    }
}

} // verus!
