//! The game ledger's service: read-only lookups, and the operations that
//! its mutations schedule.

use vstd::prelude::*;
use crate::abi::{PlayerState, RpgGameOperation};
use crate::chain::ChainId;
use crate::ledger::RpgGameState;
use crate::state::{BattleRecord, GuildData, InventoryData, PlayerData, QuestData};

verus! {

/// Answers queries from the state of a game ledger. It never changes the
/// state: a mutation yields the operation that is to be scheduled.
pub struct RpgGameService {
    pub state: RpgGameState,
}

impl RpgGameService {
    /// A service over a ledger's state.
    pub fn new(state: RpgGameState) -> (service: Self)
        ensures
            service.state == state,
    {
        RpgGameService { state }
    }

    /// The attributes of a player.
    pub fn player_state(&self, player_id: &String) -> (res: Option<PlayerData>)
        ensures
            res == (if self.state@.players.contains_key(player_id@) {
                Some(self.state@.players[player_id@])
            } else {
                None
            }),
    {
        self.state.player_state(player_id)
    }

    /// The inventory of a player.
    pub fn inventory(&self, player_id: &String) -> (res: Option<&InventoryData>)
        ensures
            match res {
                Some(inventory) => self.state@.inventories.contains_key(player_id@)
                    && inventory.deep_view() == self.state@.inventories[player_id@],
                None => !self.state@.inventories.contains_key(player_id@),
            },
    {
        self.state.inventory(player_id)
    }

    /// The quest log of a player.
    pub fn quests(&self, player_id: &String) -> (res: Option<&Vec<QuestData>>)
        ensures
            match res {
                Some(log) => self.state@.quests.contains_key(player_id@) && log.deep_view()
                    == self.state@.quests[player_id@],
                None => !self.state@.quests.contains_key(player_id@),
            },
    {
        self.state.quests(player_id)
    }

    /// The record of a battle.
    pub fn battle_record(&self, battle_id: &String) -> (res: Option<&BattleRecord>)
        ensures
            match res {
                Some(record) => self.state@.battles.contains_key(battle_id@) && record.deep_view()
                    == self.state@.battles[battle_id@],
                None => !self.state@.battles.contains_key(battle_id@),
            },
    {
        self.state.battle_record(battle_id)
    }

    /// The ids of a player's battles, one for each fact that was recorded
    /// of the player, in the order recorded.
    pub fn player_battles(&self, player_id: &String) -> (res: Option<&Vec<String>>)
        ensures
            match res {
                Some(history) => self.state@.player_battles.contains_key(player_id@)
                    && history.deep_view() == self.state@.player_battles[player_id@],
                None => !self.state@.player_battles.contains_key(player_id@),
            },
    {
        self.state.player_battles(player_id)
    }

    /// A guild. No member is listed twice.
    pub fn guild(&self, guild_id: &String) -> (res: Option<&GuildData>)
        ensures
            match res {
                Some(guild) => self.state@.guilds.contains_key(guild_id@) && guild.deep_view()
                    == self.state@.guilds[guild_id@] && guild.deep_view().members.no_duplicates(),
                None => !self.state@.guilds.contains_key(guild_id@),
            },
    {
        self.state.guild(guild_id)
    }

    /// The guild that a player joined last.
    pub fn player_guild(&self, player_id: &String) -> (res: Option<&String>)
        ensures
            match res {
                Some(guild_id) => self.state@.player_guilds.contains_key(player_id@) && guild_id@
                    == self.state@.player_guilds[player_id@],
                None => !self.state@.player_guilds.contains_key(player_id@),
            },
    {
        self.state.player_guild(player_id)
    }

    /// The world region of the ledger.
    pub fn world_region(&self) -> (region: &String)
        ensures
            region@ == self.state@.world_region,
    {
        self.state.world_region()
    }

    /// The operation that stores a player's attributes.
    pub fn save_player_state(
        player_id: String,
        health: u64,
        max_health: u64,
        strength: u64,
        wisdomness: u64,
        benchpress: u64,
        curl: u64,
        experience: u64,
        level: u64,
    ) -> (operation: RpgGameOperation)
        ensures
            operation == (RpgGameOperation::SavePlayerState {
                player_id,
                health,
                max_health,
                strength,
                wisdomness,
                benchpress,
                curl,
                experience,
                level,
            }),
    {
        RpgGameOperation::SavePlayerState {
            player_id,
            health,
            max_health,
            strength,
            wisdomness,
            benchpress,
            curl,
            experience,
            level,
        }
    }

    /// The operation that stores a player's inventory, given as JSON text.
    pub fn save_inventory(player_id: String, inventory: String) -> (operation: RpgGameOperation)
        ensures
            operation == (RpgGameOperation::SaveInventory { player_id, inventory }),
    {
        RpgGameOperation::SaveInventory { player_id, inventory }
    }

    /// The operation that stores a player's quest log, given as JSON text.
    pub fn save_quests(player_id: String, quests: String) -> (operation: RpgGameOperation)
        ensures
            operation == (RpgGameOperation::SaveQuests { player_id, quests }),
    {
        RpgGameOperation::SaveQuests { player_id, quests }
    }

    /// The operation that moves a player to another ledger, with the
    /// attributes gathered into one snapshot.
    pub fn transfer_player(
        player_id: String,
        destination_chain: ChainId,
        health: u64,
        max_health: u64,
        strength: u64,
        wisdomness: u64,
        benchpress: u64,
        curl: u64,
        experience: u64,
        level: u64,
        inventory: String,
        quests: String,
        auth_token: String,
    ) -> (operation: RpgGameOperation)
        ensures
            operation == (RpgGameOperation::TransferPlayer {
                player_id,
                destination_chain,
                player_state: PlayerState {
                    health,
                    max_health,
                    strength,
                    wisdomness,
                    benchpress,
                    curl,
                    experience,
                    level,
                },
                inventory,
                quests,
                auth_token,
            }),
    {
        let player_state = PlayerState {
            health,
            max_health,
            strength,
            wisdomness,
            benchpress,
            curl,
            experience,
            level,
        };
        RpgGameOperation::TransferPlayer {
            player_id,
            destination_chain,
            player_state,
            inventory,
            quests,
            auth_token,
        }
    }

    /// The operation that asks the ledger `chain_id` to take a player into
    /// a guild.
    pub fn join_guild(player_id: String, guild_id: String, chain_id: ChainId) -> (operation:
        RpgGameOperation)
        ensures
            operation == (RpgGameOperation::JoinGuild { player_id, guild_id, chain_id }),
    {
        RpgGameOperation::JoinGuild { player_id, guild_id, chain_id }
    }

    /// The operation that records the result of a battle.
    pub fn record_battle(
        battle_id: String,
        player_id: String,
        opponent: String,
        player_result: u64,
        damage_dealt: u64,
        damage_taken: u64,
        experience_gained: u64,
    ) -> (operation: RpgGameOperation)
        ensures
            operation == (RpgGameOperation::RecordBattle {
                battle_id,
                player_id,
                opponent,
                player_result,
                damage_dealt,
                damage_taken,
                experience_gained,
            }),
    {
        RpgGameOperation::RecordBattle {
            battle_id,
            player_id,
            opponent,
            player_result,
            damage_dealt,
            damage_taken,
            experience_gained,
        }
    }
}

} // verus!
