//! The entities that one game ledger holds, and their mathematical models.

use vstd::prelude::*;
use crate::json::{json_tree, Json};

verus! {

/// The attributes of a player.
#[derive(Debug, Clone, Copy, PartialEq, Eq, Structural)]
pub struct PlayerData {
    pub health: u64,
    pub max_health: u64,
    pub strength: u64,
    pub wisdomness: u64,
    pub benchpress: u64,
    pub curl: u64,
    pub experience: u64,
    pub level: u64,
}

impl DeepView for PlayerData {
    type V = PlayerData;

    open spec fn deep_view(&self) -> PlayerData {
        *self
    }
}

/// One inventory slot: where the item sits, which item it is, and a
/// free-form JSON value of parameters that is carried along unread.
#[derive(Debug, Clone, PartialEq)]
pub struct InventoryItem {
    pub slot: String,
    pub item_id: String,
    pub params: serde_json::Value,
}

/// The model of an [`InventoryItem`].
pub struct ItemModel {
    pub slot: Seq<char>,
    pub item_id: Seq<char>,
    pub params: Json,
}

impl DeepView for InventoryItem {
    type V = ItemModel;

    open spec fn deep_view(&self) -> ItemModel {
        ItemModel { slot: self.slot@, item_id: self.item_id@, params: json_tree(self.params) }
    }
}

/// A player's inventory: its items in order.
#[derive(Debug, Clone, PartialEq)]
pub struct InventoryData {
    pub items: Vec<InventoryItem>,
}

impl DeepView for InventoryData {
    type V = Seq<ItemModel>;

    open spec fn deep_view(&self) -> Seq<ItemModel> {
        self.items.deep_view()
    }
}

/// One quest of a player's quest log.
#[derive(Debug, Clone, PartialEq, Eq)]
pub struct QuestData {
    pub id: String,
    pub title: String,
    pub text: String,
    pub completed: bool,
    pub progress: u64,
}

/// The model of a [`QuestData`].
pub struct QuestModel {
    pub id: Seq<char>,
    pub title: Seq<char>,
    pub text: Seq<char>,
    pub completed: bool,
    pub progress: u64,
}

impl DeepView for QuestData {
    type V = QuestModel;

    open spec fn deep_view(&self) -> QuestModel {
        QuestModel {
            id: self.id@,
            title: self.title@,
            text: self.text@,
            completed: self.completed,
            progress: self.progress,
        }
    }
}

/// The record of one battle. `result` is 0 for a loss, 1 for a draw and 2
/// for a win.
#[derive(Debug, Clone, PartialEq, Eq)]
pub struct BattleRecord {
    pub battle_id: String,
    pub player_id: String,
    pub opponent: String,
    pub result: u64,
    pub damage_dealt: u64,
    pub damage_taken: u64,
    pub experience_gained: u64,
    pub timestamp: u64,
}

/// The model of a [`BattleRecord`].
pub struct BattleModel {
    pub battle_id: Seq<char>,
    pub player_id: Seq<char>,
    pub opponent: Seq<char>,
    pub result: u64,
    pub damage_dealt: u64,
    pub damage_taken: u64,
    pub experience_gained: u64,
    pub timestamp: u64,
}

impl DeepView for BattleRecord {
    type V = BattleModel;

    open spec fn deep_view(&self) -> BattleModel {
        BattleModel {
            battle_id: self.battle_id@,
            player_id: self.player_id@,
            opponent: self.opponent@,
            result: self.result,
            damage_dealt: self.damage_dealt,
            damage_taken: self.damage_taken,
            experience_gained: self.experience_gained,
            timestamp: self.timestamp,
        }
    }
}

/// A guild with its members, each named by a player id.
#[derive(Debug, Clone, PartialEq, Eq)]
pub struct GuildData {
    pub id: String,
    pub name: String,
    pub members: Vec<String>,
    pub resources: u64,
    pub level: u64,
}

/// The model of a [`GuildData`].
pub struct GuildModel {
    pub id: Seq<char>,
    pub name: Seq<char>,
    pub members: Seq<Seq<char>>,
    pub resources: u64,
    pub level: u64,
}

impl DeepView for GuildData {
    type V = GuildModel;

    open spec fn deep_view(&self) -> GuildModel {
        GuildModel {
            id: self.id@,
            name: self.name@,
            members: self.members.deep_view(),
            resources: self.resources,
            level: self.level,
        }
    }
}

/// The marker that a ledger keeps of a migration it has started.
#[derive(Debug, PartialEq, Eq)]
pub struct PlayerTransferRequest {
    pub source_chain: crate::chain::ChainId,
    pub destination_chain: crate::chain::ChainId,
    pub player_id: String,
    pub auth_token: String,
    pub timestamp: u64,
}

/// The model of a [`PlayerTransferRequest`].
pub struct TransferRequestModel {
    pub source_chain: Seq<char>,
    pub destination_chain: Seq<char>,
    pub player_id: Seq<char>,
    pub auth_token: Seq<char>,
    pub timestamp: u64,
}

impl DeepView for PlayerTransferRequest {
    type V = TransferRequestModel;

    open spec fn deep_view(&self) -> TransferRequestModel {
        TransferRequestModel {
            source_chain: self.source_chain.deep_view(),
            destination_chain: self.destination_chain.deep_view(),
            player_id: self.player_id@,
            auth_token: self.auth_token@,
            timestamp: self.timestamp,
        }
    }
}

} // verus!
