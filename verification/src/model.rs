//! The mathematical model of a game ledger and of what each request does
//! to it. The executable ledger is specified against these functions, and
//! the laws of the protocol are proved of them.

use vstd::prelude::*;
use crate::abi::{MessageModel, PlayerState};
use crate::error::{DecodeField, LedgerError};
use crate::lists::{list_at, with_member};
use crate::payload::{decoded_inventory, decoded_quests};
use crate::state::{
    BattleModel, GuildModel, InventoryItem, ItemModel, PlayerData, QuestData, QuestModel,
    TransferRequestModel,
};

verus! {

/// The name that a guild gets when a join creates it: no name travels with
/// the join, so one is derived from the guild's id.
pub open spec fn derived_guild_name(guild_id: Seq<char>) -> Seq<char> {
    "Guild_"@ + guild_id
}

/// The guild that a first join creates: one member, level 1, no resources.
pub open spec fn founded_guild(guild_id: Seq<char>, player_id: Seq<char>) -> GuildModel {
    GuildModel {
        id: guild_id,
        name: derived_guild_name(guild_id),
        members: seq![player_id],
        resources: 0,
        level: 1,
    }
}

/// Whether two battle records state the same fact: they agree on all but
/// the time at which they were recorded.
pub open spec fn same_battle(a: BattleModel, b: BattleModel) -> bool {
    &&& a.battle_id == b.battle_id
    &&& a.player_id == b.player_id
    &&& a.opponent == b.opponent
    &&& a.result == b.result
    &&& a.damage_dealt == b.damage_dealt
    &&& a.damage_taken == b.damage_taken
    &&& a.experience_gained == b.experience_gained
}

/// Whether no two records of a list state the same fact.
pub open spec fn distinct_battles(facts: Seq<BattleModel>) -> bool {
    forall|i: int, j: int|
        0 <= i < j < facts.len() ==> !same_battle(#[trigger] facts[i], #[trigger] facts[j])
}

/// Whether a list of battle records holds the fact that `record` states.
pub open spec fn holds_battle(facts: Seq<BattleModel>, record: BattleModel) -> bool {
    exists|i: int| 0 <= i < facts.len() && same_battle(#[trigger] facts[i], record)
}

/// Whether a fact is a fact of the battle id and the id stands in the
/// history of the fact's player.
pub open spec fn fact_fits(
    histories: Map<Seq<char>, Seq<Seq<char>>>,
    battle_id: Seq<char>,
    fact: BattleModel,
) -> bool {
    fact.battle_id == battle_id && list_at(histories, fact.player_id).contains(battle_id)
}

/// Whether a list of facts is in order under a battle id: the facts are
/// facts of that id, no two of them the same, and the id stands in the
/// history of each fact's player.
pub open spec fn facts_fit(
    histories: Map<Seq<char>, Seq<Seq<char>>>,
    battle_id: Seq<char>,
    facts: Seq<BattleModel>,
) -> bool {
    &&& distinct_battles(facts)
    &&& forall|i: int| 0 <= i < facts.len() ==> fact_fits(histories, battle_id, #[trigger] facts[i])
}

/// Everything that one game ledger holds.
pub struct GameModel {
    /// Player id → attributes.
    pub players: Map<Seq<char>, PlayerData>,
    /// Player id → inventory.
    pub inventories: Map<Seq<char>, Seq<ItemModel>>,
    /// Player id → quest log.
    pub quests: Map<Seq<char>, Seq<QuestModel>>,
    /// Battle id → the record that was stored under the id last.
    pub battles: Map<Seq<char>, BattleModel>,
    /// Battle id → every fact that was recorded under the id, each once,
    /// in the order and at the time at which it was first recorded. This
    /// is the memory by which a redelivery is told from a new fact.
    pub battle_facts: Map<Seq<char>, Seq<BattleModel>>,
    /// Guild id → guild.
    pub guilds: Map<Seq<char>, GuildModel>,
    /// Player id → the guild that the player joined last.
    pub player_guilds: Map<Seq<char>, Seq<char>>,
    /// Player id → ids of the player's battles, in the order recorded.
    pub player_battles: Map<Seq<char>, Seq<Seq<char>>>,
    /// Guild id → players for whom a join request was sent out.
    pub guild_join_requests: Map<Seq<char>, Seq<Seq<char>>>,
    /// Player id → the migration that was started for the player.
    pub transfer_requests: Map<Seq<char>, TransferRequestModel>,
    /// The world region of the ledger.
    pub world_region: Seq<char>,
}

impl GameModel {
    /// The ledger that holds nothing, in the region without a name.
    pub open spec fn empty() -> GameModel {
        GameModel {
            players: Map::empty(),
            inventories: Map::empty(),
            quests: Map::empty(),
            battles: Map::empty(),
            battle_facts: Map::empty(),
            guilds: Map::empty(),
            player_guilds: Map::empty(),
            player_battles: Map::empty(),
            guild_join_requests: Map::empty(),
            transfer_requests: Map::empty(),
            world_region: Seq::empty(),
        }
    }

    /// What every ledger satisfies: no guild lists a member twice; the
    /// facts under a battle id are facts of that id, no two of them the
    /// same, and each stands with its id in the history of its player; and
    /// the record under a battle id is the fact that was recorded under
    /// the id last.
    pub open spec fn valid(self) -> bool {
        &&& forall|g: Seq<char>| #[trigger]
            self.guilds.contains_key(g) ==> self.guilds[g].members.no_duplicates()
        &&& forall|b: Seq<char>| #[trigger]
            self.battle_facts.contains_key(b) ==> facts_fit(
                self.player_battles,
                b,
                self.battle_facts[b],
            )
        &&& forall|b: Seq<char>| #[trigger]
            self.battles.contains_key(b) ==> self.battle_facts.contains_key(b)
                && self.battle_facts[b].len() > 0 && self.battle_facts[b].last()
                == self.battles[b]
    }

    /// The ledger named anew.
    pub open spec fn in_region(self, region: Seq<char>) -> GameModel {
        GameModel { world_region: region, ..self }
    }

    /// The ledger after a player's attributes were stored.
    pub open spec fn save_player(self, player_id: Seq<char>, data: PlayerData) -> GameModel {
        GameModel { players: self.players.insert(player_id, data), ..self }
    }

    /// The ledger after an inventory was installed for a player, in place
    /// of the player's earlier one.
    pub open spec fn install_inventory(self, player_id: Seq<char>, items: Seq<ItemModel>) -> GameModel {
        GameModel { inventories: self.inventories.insert(player_id, items), ..self }
    }

    /// The ledger after a quest log was installed for a player, in place
    /// of the player's earlier one.
    pub open spec fn install_quests(self, player_id: Seq<char>, quests: Seq<QuestModel>) -> GameModel {
        GameModel { quests: self.quests.insert(player_id, quests), ..self }
    }

    /// The ledger after an inventory payload was submitted: the decoded
    /// inventory replaces the player's, and a malformed payload changes
    /// nothing.
    pub open spec fn save_inventory(self, player_id: Seq<char>, payload: Seq<char>) -> GameModel {
        match decoded_inventory(payload) {
            Some(items) => self.install_inventory(player_id, items),
            None => self,
        }
    }

    /// The ledger after a quest payload was submitted: the decoded log
    /// replaces the player's, and a malformed payload changes nothing.
    pub open spec fn save_quests(self, player_id: Seq<char>, payload: Seq<char>) -> GameModel {
        match decoded_quests(payload) {
            Some(quests) => self.install_quests(player_id, quests),
            None => self,
        }
    }

    /// The ledger after the snapshot of a migrating player was installed,
    /// given what its payloads were decoded to, `None` standing for a
    /// payload that cannot be decoded. The snapshot is installed in three
    /// steps: attributes, inventory, quest log. A payload that cannot be
    /// decoded ends the installation, and the steps before it stay done.
    pub open spec fn install_transfer(
        self,
        player_id: Seq<char>,
        player_state: PlayerState,
        inventory: Option<Seq<ItemModel>>,
        quests: Option<Seq<QuestModel>>,
    ) -> GameModel {
        let first = self.save_player(player_id, player_state.stored());
        match inventory {
            None => first,
            Some(items) => {
                let second = first.install_inventory(player_id, items);
                match quests {
                    None => second,
                    Some(log) => second.install_quests(player_id, log),
                }
            },
        }
    }

    /// The ledger after a migrating player arrived: the snapshot is
    /// installed as `install_transfer` says, with the payloads decoded from
    /// their JSON text.
    pub open spec fn accept_transfer(
        self,
        player_id: Seq<char>,
        player_state: PlayerState,
        inventory: Seq<char>,
        quests: Seq<char>,
    ) -> GameModel {
        self.install_transfer(
            player_id,
            player_state,
            decoded_inventory(inventory),
            decoded_quests(quests),
        )
    }

    /// The ledger after the migration of a player was started: the marker
    /// replaces any earlier one for the player. Nothing of the player is
    /// removed.
    pub open spec fn initiate_transfer(self, request: TransferRequestModel) -> GameModel {
        GameModel {
            transfer_requests: self.transfer_requests.insert(request.player_id, request),
            ..self
        }
    }

    /// The ledger after a join request for `player_id` was sent out: the
    /// player is noted behind the others that wait for the guild.
    pub open spec fn request_join(self, player_id: Seq<char>, guild_id: Seq<char>) -> GameModel {
        GameModel {
            guild_join_requests: self.guild_join_requests.insert(
                guild_id,
                list_at(self.guild_join_requests, guild_id).push(player_id),
            ),
            ..self
        }
    }

    /// The guild `guild_id` once `player_id` has joined it.
    pub open spec fn joined_guild(self, player_id: Seq<char>, guild_id: Seq<char>) -> GuildModel {
        if self.guilds.contains_key(guild_id) {
            GuildModel {
                members: with_member(self.guilds[guild_id].members, player_id),
                ..self.guilds[guild_id]
            }
        } else {
            founded_guild(guild_id, player_id)
        }
    }

    /// The ledger after a join arrived: the player is a member of the
    /// guild, which is founded where it did not exist, and the player's
    /// guild is this one.
    pub open spec fn accept_join(self, player_id: Seq<char>, guild_id: Seq<char>) -> GameModel {
        GameModel {
            guilds: self.guilds.insert(guild_id, self.joined_guild(player_id, guild_id)),
            player_guilds: self.player_guilds.insert(player_id, guild_id),
            ..self
        }
    }

    /// Whether the fact that `record` states was recorded before.
    pub open spec fn battle_seen(self, record: BattleModel) -> bool {
        holds_battle(list_at(self.battle_facts, record.battle_id), record)
    }

    /// The ledger after a battle was reported. A fact that was recorded
    /// before changes nothing. Any other is stored under its battle id, in
    /// place of what was there; it is remembered among the facts of the
    /// id; and the id is put last in the player's history.
    pub open spec fn record_battle(self, record: BattleModel) -> GameModel {
        if self.battle_seen(record) {
            self
        } else {
            GameModel {
                battles: self.battles.insert(record.battle_id, record),
                battle_facts: self.battle_facts.insert(
                    record.battle_id,
                    list_at(self.battle_facts, record.battle_id).push(record),
                ),
                player_battles: self.player_battles.insert(
                    record.player_id,
                    list_at(self.player_battles, record.player_id).push(record.battle_id),
                ),
                ..self
            }
        }
    }
}

impl GameModel {
    /// How the delivery of a message ends: a migration with the error of
    /// its first payload that cannot be decoded, a battle that was recorded
    /// before as a duplicate, and everything else well.
    pub open spec fn delivery_result(self, message: MessageModel) -> Result<(), LedgerError> {
        match message {
            MessageModel::PlayerTransfer { inventory, quests, .. } => transfer_result(
                inventory,
                quests,
            ),
            MessageModel::GuildJoinRequest { .. } => Ok(()),
            MessageModel::BattleResult {
                battle_id,
                player_id,
                opponent,
                result,
                damage_dealt,
                damage_taken,
                experience_gained,
            } => if self.battle_seen(
                BattleModel {
                    battle_id,
                    player_id,
                    opponent,
                    result,
                    damage_dealt,
                    damage_taken,
                    experience_gained,
                    timestamp: 0,
                },
            ) {
                Err(LedgerError::Duplicate)
            } else {
                Ok(())
            },
        }
    }

    /// The ledger after the delivery of a message at the time `now`.
    pub open spec fn delivery(self, now: u64, message: MessageModel) -> GameModel {
        match message {
            MessageModel::PlayerTransfer {
                player_id,
                player_state,
                inventory,
                quests,
                ..
            } => self.accept_transfer(player_id, player_state, inventory, quests),
            MessageModel::GuildJoinRequest { player_id, guild_id } => self.accept_join(
                player_id,
                guild_id,
            ),
            MessageModel::BattleResult {
                battle_id,
                player_id,
                opponent,
                result,
                damage_dealt,
                damage_taken,
                experience_gained,
            } => self.record_battle(
                BattleModel {
                    battle_id,
                    player_id,
                    opponent,
                    result,
                    damage_dealt,
                    damage_taken,
                    experience_gained,
                    timestamp: now,
                },
            ),
        }
    }
}

/// How the installation of a snapshot ends, given what its payloads were
/// decoded to: with the error of the first payload that cannot be decoded,
/// if there is one.
pub open spec fn install_result(
    inventory: Option<Seq<ItemModel>>,
    quests: Option<Seq<QuestModel>>,
) -> Result<(), LedgerError> {
    if inventory is None {
        Err(LedgerError::DecodeError { field: DecodeField::Inventory })
    } else if quests is None {
        Err(LedgerError::DecodeError { field: DecodeField::Quests })
    } else {
        Ok(())
    }
}

/// How the arrival of a migrating player ends: with the error of the first
/// payload that cannot be decoded, if there is one.
pub open spec fn transfer_result(inventory: Seq<char>, quests: Seq<char>) -> Result<
    (),
    LedgerError,
> {
    install_result(decoded_inventory(inventory), decoded_quests(quests))
}

/// The inventory that a decoded payload stands for.
pub open spec fn items_model(items: Option<Vec<InventoryItem>>) -> Option<Seq<ItemModel>> {
    match items {
        Some(items) => Some(items.deep_view()),
        None => None,
    }
}

/// The quest log that a decoded payload stands for.
pub open spec fn quests_model(quests: Option<Vec<QuestData>>) -> Option<Seq<QuestModel>> {
    match quests {
        Some(quests) => Some(quests.deep_view()),
        None => None,
    }
}

} // verus!
