//! The state of one game ledger: every entity it holds, and the requests
//! that change it.

use vstd::prelude::*;
use vstd::string::StringExecFns;
use crate::abi::PlayerState;
use crate::error::{DecodeField, LedgerError};
use crate::lists::{list_at, list_contains};
use crate::model::{
    holds_battle, install_result, items_model, quests_model, same_battle, transfer_result,
    GameModel,
};
use crate::payload::{decode_inventory, decode_quests, decoded_inventory, decoded_quests};
use crate::state::{
    BattleRecord, GuildData, InventoryData, InventoryItem, PlayerData, PlayerTransferRequest,
    QuestData,
};
use crate::snapshot::{all_facts_in_place, guilds_distinct, records_are_latest, GameSnapshot};
use crate::table::Table;

verus! {

/// Whether two battle records state the same fact.
pub fn same_fact(a: &BattleRecord, b: &BattleRecord) -> (same: bool)
    ensures
        same == same_battle(a.deep_view(), b.deep_view()),
{
    a.battle_id == b.battle_id && a.player_id == b.player_id && a.opponent == b.opponent
        && a.result == b.result && a.damage_dealt == b.damage_dealt && a.damage_taken
        == b.damage_taken && a.experience_gained == b.experience_gained
}

/// Whether two battle records are the same, the time included.
pub fn same_record(a: &BattleRecord, b: &BattleRecord) -> (same: bool)
    ensures
        same == (a.deep_view() == b.deep_view()),
{
    same_fact(a, b) && a.timestamp == b.timestamp
}

/// Whether a list of battle records holds the fact that `record` states.
pub fn holds_fact(facts: &Vec<BattleRecord>, record: &BattleRecord) -> (found: bool)
    ensures
        found == holds_battle(facts.deep_view(), record.deep_view()),
{
    let mut i: usize = 0;
    while i < facts.len()
        invariant
            i <= facts@.len(),
            forall|j: int|
                0 <= j < i ==> !same_battle(#[trigger] facts.deep_view()[j], record.deep_view()),
        decreases facts@.len() - i,
    {
        if same_fact(&facts[i], record) {
            assert(same_battle(facts.deep_view()[i as int], record.deep_view()));
            return true;
        }
        i += 1;
    }
    false
}

/// A second copy of a battle record.
pub fn copy_record(record: &BattleRecord) -> (copy: BattleRecord)
    ensures
        copy.deep_view() == record.deep_view(),
{
    BattleRecord {
        battle_id: record.battle_id.clone(),
        player_id: record.player_id.clone(),
        opponent: record.opponent.clone(),
        result: record.result,
        damage_dealt: record.damage_dealt,
        damage_taken: record.damage_taken,
        experience_gained: record.experience_gained,
        timestamp: record.timestamp,
    }
}

/// The tables of a ledger.
struct GameCore {
    player_states: Table<PlayerData>,
    player_inventories: Table<InventoryData>,
    player_quests: Table<Vec<QuestData>>,
    battle_records: Table<BattleRecord>,
    battle_facts: Table<Vec<BattleRecord>>,
    guilds: Table<GuildData>,
    player_guilds: Table<String>,
    player_battles: Table<Vec<String>>,
    guild_join_requests: Table<Vec<String>>,
    player_transfer_requests: Table<PlayerTransferRequest>,
    world_region: String,
}

impl GameCore {
    spec fn model(&self) -> GameModel {
        GameModel {
            players: self.player_states@,
            inventories: self.player_inventories@,
            quests: self.player_quests@,
            battles: self.battle_records@,
            battle_facts: self.battle_facts@,
            guilds: self.guilds@,
            player_guilds: self.player_guilds@,
            player_battles: self.player_battles@,
            guild_join_requests: self.guild_join_requests@,
            transfer_requests: self.player_transfer_requests@,
            world_region: self.world_region@,
        }
    }

    fn empty() -> (core: Self)
        ensures
            core.model() == GameModel::empty(),
    {
        GameCore {
            player_states: Table::new(),
            player_inventories: Table::new(),
            player_quests: Table::new(),
            battle_records: Table::new(),
            battle_facts: Table::new(),
            guilds: Table::new(),
            player_guilds: Table::new(),
            player_battles: Table::new(),
            guild_join_requests: Table::new(),
            player_transfer_requests: Table::new(),
            world_region: String::new(),
        }
    }

    fn accept_join(&mut self, player_id: String, guild_id: String)
        requires
            old(self).model().valid(),
        ensures
            final(self).model() == old(self).model().accept_join(player_id@, guild_id@),
            final(self).model().valid(),
    {
        let ghost before = self.model();
        let guild = match self.guilds.remove(&guild_id) {
            Some(mut guild) => {
                let ghost members = guild.members.deep_view();
                if !list_contains(&guild.members, &player_id) {
                    guild.members.push(player_id.clone());
                    assert(guild.members.deep_view() =~= members.push(player_id@));
                }
                guild
            },
            None => {
                let mut members: Vec<String> = Vec::new();
                members.push(player_id.clone());
                assert(members.deep_view() =~= seq![player_id@]);
                GuildData {
                    id: guild_id.clone(),
                    name: "Guild_".to_owned().concat(guild_id.as_str()),
                    members,
                    resources: 0,
                    level: 1,
                }
            },
        };
        self.guilds.insert(guild_id.clone(), guild);
        self.player_guilds.insert(player_id, guild_id);
        assert(self.guilds@ =~= before.guilds.insert(
            guild_id@,
            before.joined_guild(player_id@, guild_id@),
        ));
        proof {
            crate::laws::law_join_keeps_valid(before, player_id@, guild_id@);
        }
    }

    fn record_battle(&mut self, record: BattleRecord) -> (res: Result<(), LedgerError>)
        requires
            old(self).model().valid(),
        ensures
            final(self).model() == old(self).model().record_battle(record.deep_view()),
            final(self).model().valid(),
            res == if old(self).model().battle_seen(record.deep_view()) {
                Err::<(), LedgerError>(LedgerError::Duplicate)
            } else {
                Ok::<(), LedgerError>(())
            },
    {
        let ghost before = self.model();
        let ghost fact = record.deep_view();
        let seen = match self.battle_facts.get(&record.battle_id) {
            Some(facts) => holds_fact(facts, &record),
            None => false,
        };
        if seen {
            return Err(LedgerError::Duplicate);
        }
        assert(!before.battle_seen(fact)) by {
            if !before.battle_facts.contains_key(fact.battle_id) {
                assert(list_at(before.battle_facts, fact.battle_id).len() == 0);
            }
        }
        let mut history = match self.player_battles.remove(&record.player_id) {
            Some(history) => history,
            None => Vec::new(),
        };
        let ghost earlier = history.deep_view();
        assert(earlier =~= list_at(before.player_battles, fact.player_id));
        history.push(record.battle_id.clone());
        assert(history.deep_view() =~= earlier.push(fact.battle_id));
        self.player_battles.insert(record.player_id.clone(), history);
        assert(self.player_battles@ =~= before.player_battles.insert(
            fact.player_id,
            earlier.push(fact.battle_id),
        ));
        let mut facts = match self.battle_facts.remove(&record.battle_id) {
            Some(facts) => facts,
            None => Vec::new(),
        };
        let ghost known = facts.deep_view();
        assert(known =~= list_at(before.battle_facts, fact.battle_id));
        facts.push(copy_record(&record));
        assert(facts.deep_view() =~= known.push(fact));
        self.battle_facts.insert(record.battle_id.clone(), facts);
        assert(self.battle_facts@ =~= before.battle_facts.insert(fact.battle_id, known.push(fact)));
        self.battle_records.insert(record.battle_id.clone(), record);
        proof {
            crate::laws::law_battle_keeps_valid(before, fact);
        }
        Ok(())
    }

    fn request_join(&mut self, player_id: String, guild_id: String)
        ensures
            final(self).model() == old(self).model().request_join(player_id@, guild_id@),
    {
        let ghost before = self.model();
        let mut waiting = match self.guild_join_requests.remove(&guild_id) {
            Some(waiting) => waiting,
            None => Vec::new(),
        };
        let ghost earlier = waiting.deep_view();
        assert(earlier =~= list_at(before.guild_join_requests, guild_id@));
        waiting.push(player_id);
        assert(waiting.deep_view() =~= earlier.push(player_id@));
        self.guild_join_requests.insert(guild_id, waiting);
        assert(self.guild_join_requests@ =~= before.guild_join_requests.insert(
            guild_id@,
            earlier.push(player_id@),
        ));
    }

    fn install_transfer(
        &mut self,
        player_id: String,
        player_state: PlayerState,
        inventory: Option<Vec<InventoryItem>>,
        quests: Option<Vec<QuestData>>,
    ) -> (res: Result<(), LedgerError>)
        ensures
            final(self).model() == old(self).model().install_transfer(
                player_id@,
                player_state,
                items_model(inventory),
                quests_model(quests),
            ),
            res == install_result(items_model(inventory), quests_model(quests)),
    {
        self.player_states.insert(player_id.clone(), player_state.to_data());
        let items = match inventory {
            Some(items) => items,
            None => {
                return Err(LedgerError::DecodeError { field: DecodeField::Inventory });
            },
        };
        self.player_inventories.insert(player_id.clone(), InventoryData { items });
        let log = match quests {
            Some(log) => log,
            None => {
                return Err(LedgerError::DecodeError { field: DecodeField::Quests });
            },
        };
        self.player_quests.insert(player_id, log);
        Ok(())
    }
}

/// Everything that one game ledger holds. Its view is a [`GameModel`],
/// which is valid at all times.
pub struct RpgGameState {
    core: GameCore,
}

impl View for RpgGameState {
    type V = GameModel;

    closed spec fn view(&self) -> GameModel {
        self.core.model()
    }
}

impl RpgGameState {
    #[verifier::type_invariant]
    closed spec fn well_formed(self) -> bool {
        self.core.model().valid()
    }

    /// The empty ledger of a world region.
    pub fn new(world_region: String) -> (state: Self)
        ensures
            state@ == GameModel::empty().in_region(world_region@),
            state@.valid(),
    {
        let mut core = GameCore::empty();
        core.world_region = world_region;
        RpgGameState { core }
    }

    /// Takes the ledger apart into lists, for the layer that persists it.
    pub fn into_snapshot(self) -> (snapshot: GameSnapshot)
        ensures
            snapshot.keyed(),
            snapshot.model() == self@,
            snapshot.model().valid(),
    {
        proof {
            use_type_invariant(&self);
        }
        let core = self.core;
        GameSnapshot {
            player_states: core.player_states.into_pairs(),
            player_inventories: core.player_inventories.into_pairs(),
            player_quests: core.player_quests.into_pairs(),
            battle_records: core.battle_records.into_pairs(),
            battle_facts: core.battle_facts.into_pairs(),
            guilds: core.guilds.into_pairs(),
            player_guilds: core.player_guilds.into_pairs(),
            player_battles: core.player_battles.into_pairs(),
            guild_join_requests: core.guild_join_requests.into_pairs(),
            player_transfer_requests: core.player_transfer_requests.into_pairs(),
            world_region: core.world_region,
        }
    }

    /// Rebuilds a ledger from lists. `None` exactly where a list holds a
    /// key twice or the lists stand for no valid ledger.
    pub fn restore(snapshot: GameSnapshot) -> (res: Option<Self>)
        ensures
            match res {
                Some(state) => snapshot.keyed() && snapshot.model().valid() && state@
                    == snapshot.model(),
                None => !(snapshot.keyed() && snapshot.model().valid()),
            },
    {
        let player_states = match Table::from_pairs(snapshot.player_states) {
            Some(table) => table,
            None => { return None; },
        };
        let player_inventories = match Table::from_pairs(snapshot.player_inventories) {
            Some(table) => table,
            None => { return None; },
        };
        let player_quests = match Table::from_pairs(snapshot.player_quests) {
            Some(table) => table,
            None => { return None; },
        };
        let battle_records = match Table::from_pairs(snapshot.battle_records) {
            Some(table) => table,
            None => { return None; },
        };
        let battle_facts = match Table::from_pairs(snapshot.battle_facts) {
            Some(table) => table,
            None => { return None; },
        };
        let guilds = match Table::from_pairs(snapshot.guilds) {
            Some(table) => table,
            None => { return None; },
        };
        let player_guilds = match Table::from_pairs(snapshot.player_guilds) {
            Some(table) => table,
            None => { return None; },
        };
        let player_battles = match Table::from_pairs(snapshot.player_battles) {
            Some(table) => table,
            None => { return None; },
        };
        let guild_join_requests = match Table::from_pairs(snapshot.guild_join_requests) {
            Some(table) => table,
            None => { return None; },
        };
        let player_transfer_requests = match Table::from_pairs(snapshot.player_transfer_requests) {
            Some(table) => table,
            None => { return None; },
        };
        let ghost wanted = snapshot.model();
        assert(guilds@ == wanted.guilds);
        assert(player_battles@ == wanted.player_battles);
        assert(battle_records@ == wanted.battles);
        assert(battle_facts@ == wanted.battle_facts);
        if !guilds_distinct(&guilds) {
            return None;
        }
        if !all_facts_in_place(&battle_facts, &player_battles) {
            return None;
        }
        if !records_are_latest(&battle_records, &battle_facts) {
            return None;
        }
        let core = GameCore {
            player_states,
            player_inventories,
            player_quests,
            battle_records,
            battle_facts,
            guilds,
            player_guilds,
            player_battles,
            guild_join_requests,
            player_transfer_requests,
            world_region: snapshot.world_region,
        };
        Some(RpgGameState { core })
    }

    /// Does nothing when run. To the verifier it shows that the ledger is
    /// valid, which holds of every ledger at all times.
    pub fn witness_valid(&self)
        ensures
            self@.valid(),
    {
        proof {
            use_type_invariant(self);
        }
    }

    /// Names the world region of the ledger.
    pub fn set_world_region(&mut self, world_region: String)
        ensures
            final(self)@.valid(),
            final(self)@ == old(self)@.in_region(world_region@),
    {
        proof {
            use_type_invariant(&*self);
        }
        let mut core = GameCore::empty();
        core::mem::swap(&mut self.core, &mut core);
        let ghost before = core.model();
        core.world_region = world_region;
        assert(core.model() == before.in_region(world_region@));
        core::mem::swap(&mut self.core, &mut core);
    }

    /// Stores a player's attributes, in place of any stored before.
    pub fn save_player_state(&mut self, player_id: String, data: PlayerData)
        ensures
            final(self)@.valid(),
            final(self)@ == old(self)@.save_player(player_id@, data),
    {
        proof {
            use_type_invariant(&*self);
        }
        let mut core = GameCore::empty();
        core::mem::swap(&mut self.core, &mut core);
        let ghost before = core.model();
        core.player_states.insert(player_id, data);
        assert(core.model() == before.save_player(player_id@, data));
        core::mem::swap(&mut self.core, &mut core);
    }

    /// Installs an inventory for a player, in place of the player's
    /// earlier one.
    pub fn install_inventory(&mut self, player_id: String, items: Vec<InventoryItem>)
        ensures
            final(self)@.valid(),
            final(self)@ == old(self)@.install_inventory(player_id@, items.deep_view()),
    {
        proof {
            use_type_invariant(&*self);
        }
        let mut core = GameCore::empty();
        core::mem::swap(&mut self.core, &mut core);
        let ghost before = core.model();
        core.player_inventories.insert(player_id, InventoryData { items });
        assert(core.model() == before.install_inventory(player_id@, items.deep_view()));
        core::mem::swap(&mut self.core, &mut core);
    }

    /// Installs a quest log for a player, in place of the player's earlier
    /// one.
    pub fn install_quests(&mut self, player_id: String, quests: Vec<QuestData>)
        ensures
            final(self)@.valid(),
            final(self)@ == old(self)@.install_quests(player_id@, quests.deep_view()),
    {
        proof {
            use_type_invariant(&*self);
        }
        let mut core = GameCore::empty();
        core::mem::swap(&mut self.core, &mut core);
        let ghost before = core.model();
        core.player_quests.insert(player_id, quests);
        assert(core.model() == before.install_quests(player_id@, quests.deep_view()));
        core::mem::swap(&mut self.core, &mut core);
    }

    /// Stores the inventory that a JSON payload carries, in place of the
    /// player's earlier one. A malformed payload is refused with a decode
    /// error and leaves the ledger as it was.
    pub fn save_inventory(&mut self, player_id: String, inventory: &str) -> (res: Result<
        (),
        LedgerError,
    >)
        ensures
            final(self)@.valid(),
            final(self)@ == old(self)@.save_inventory(player_id@, inventory@),
            decoded_inventory(inventory@) is Some ==> res == Ok::<(), LedgerError>(()),
            decoded_inventory(inventory@) is None ==> final(self)@ == old(self)@ && res == Err::<
                (),
                LedgerError,
            >(LedgerError::DecodeError { field: DecodeField::Inventory }),
    {
        proof {
            use_type_invariant(&*self);
        }
        match decode_inventory(inventory) {
            Some(items) => {
                self.install_inventory(player_id, items);
                Ok(())
            },
            None => Err(LedgerError::DecodeError { field: DecodeField::Inventory }),
        }
    }

    /// Stores the quest log that a JSON payload carries, in place of the
    /// player's earlier one. A malformed payload is refused with a decode
    /// error and leaves the ledger as it was.
    pub fn save_quests(&mut self, player_id: String, quests: &str) -> (res: Result<(), LedgerError>)
        ensures
            final(self)@.valid(),
            final(self)@ == old(self)@.save_quests(player_id@, quests@),
            decoded_quests(quests@) is Some ==> res == Ok::<(), LedgerError>(()),
            decoded_quests(quests@) is None ==> final(self)@ == old(self)@ && res == Err::<
                (),
                LedgerError,
            >(LedgerError::DecodeError { field: DecodeField::Quests }),
    {
        proof {
            use_type_invariant(&*self);
        }
        match decode_quests(quests) {
            Some(log) => {
                self.install_quests(player_id, log);
                Ok(())
            },
            None => Err(LedgerError::DecodeError { field: DecodeField::Quests }),
        }
    }

    /// Installs the snapshot of a migrating player whose payloads were
    /// decoded already, `None` standing for a payload that cannot be
    /// decoded: attributes, then inventory, then quest log, each in place
    /// of what the ledger held for the player. The first payload that
    /// cannot be decoded ends the installation with its error; what was
    /// installed before it stays.
    pub fn install_transfer(
        &mut self,
        player_id: String,
        player_state: PlayerState,
        inventory: Option<Vec<InventoryItem>>,
        quests: Option<Vec<QuestData>>,
    ) -> (res: Result<(), LedgerError>)
        ensures
            final(self)@.valid(),
            final(self)@ == old(self)@.install_transfer(
                player_id@,
                player_state,
                items_model(inventory),
                quests_model(quests),
            ),
            res == install_result(items_model(inventory), quests_model(quests)),
    {
        proof {
            use_type_invariant(&*self);
        }
        let mut core = GameCore::empty();
        core::mem::swap(&mut self.core, &mut core);
        let res = core.install_transfer(player_id, player_state, inventory, quests);
        core::mem::swap(&mut self.core, &mut core);
        res
    }

    /// Installs the snapshot of a migrating player: attributes, then
    /// inventory, then quest log, each in place of what the ledger held for
    /// the player. The first payload that cannot be decoded ends the
    /// installation with its error; what was installed before it stays.
    pub fn accept_transfer(
        &mut self,
        player_id: String,
        player_state: PlayerState,
        inventory: &str,
        quests: &str,
    ) -> (res: Result<(), LedgerError>)
        ensures
            final(self)@.valid(),
            final(self)@ == old(self)@.accept_transfer(
                player_id@,
                player_state,
                inventory@,
                quests@,
            ),
            res == transfer_result(inventory@, quests@),
    {
        let items = decode_inventory(inventory);
        let log = if items.is_some() {
            decode_quests(quests)
        } else {
            None
        };
        self.install_transfer(player_id, player_state, items, log)
    }

    /// Notes that the migration of a player was started, in place of any
    /// earlier note for the player. The player's data stay on the ledger.
    pub fn initiate_transfer(&mut self, request: PlayerTransferRequest)
        ensures
            final(self)@.valid(),
            final(self)@ == old(self)@.initiate_transfer(request.deep_view()),
    {
        proof {
            use_type_invariant(&*self);
        }
        let mut core = GameCore::empty();
        core::mem::swap(&mut self.core, &mut core);
        let ghost before = core.model();
        core.player_transfer_requests.insert(request.player_id.clone(), request);
        assert(core.model() == before.initiate_transfer(request.deep_view()));
        core::mem::swap(&mut self.core, &mut core);
    }

    /// Notes that a join request for the player was sent out.
    pub fn request_join(&mut self, player_id: String, guild_id: String)
        ensures
            final(self)@.valid(),
            final(self)@ == old(self)@.request_join(player_id@, guild_id@),
    {
        proof {
            use_type_invariant(&*self);
        }
        let mut core = GameCore::empty();
        core::mem::swap(&mut self.core, &mut core);
        core.request_join(player_id, guild_id);
        core::mem::swap(&mut self.core, &mut core);
    }

    /// Takes a player into a guild. The guild is founded where the ledger
    /// does not hold it; a player who is a member already is not listed a
    /// second time. The player's guild becomes this one.
    pub fn accept_join(&mut self, player_id: String, guild_id: String)
        ensures
            final(self)@.valid(),
            final(self)@ == old(self)@.accept_join(player_id@, guild_id@),
    {
        proof {
            use_type_invariant(&*self);
        }
        let mut core = GameCore::empty();
        core::mem::swap(&mut self.core, &mut core);
        core.accept_join(player_id, guild_id);
        core::mem::swap(&mut self.core, &mut core);
    }

    /// Records a battle. A record that states a fact which was recorded
    /// before, at whatever time, is a redelivery: it is refused as a
    /// duplicate and nothing changes. Any other record is stored under its
    /// battle id, in place of what was there, is remembered among the facts
    /// of the id, and its id is put last in the player's history.
    pub fn record_battle(&mut self, record: BattleRecord) -> (res: Result<(), LedgerError>)
        ensures
            final(self)@.valid(),
            final(self)@ == old(self)@.record_battle(record.deep_view()),
            res == if old(self)@.battle_seen(record.deep_view()) {
                Err::<(), LedgerError>(LedgerError::Duplicate)
            } else {
                Ok::<(), LedgerError>(())
            },
    {
        proof {
            use_type_invariant(&*self);
        }
        let mut core = GameCore::empty();
        core::mem::swap(&mut self.core, &mut core);
        let res = core.record_battle(record);
        core::mem::swap(&mut self.core, &mut core);
        res
    }

    /// The attributes stored for a player.
    pub fn player_state(&self, player_id: &String) -> (res: Option<PlayerData>)
        ensures
            res == (if self@.players.contains_key(player_id@) {
                Some(self@.players[player_id@])
            } else {
                None
            }),
    {
        match self.core.player_states.get(player_id) {
            Some(data) => Some(*data),
            None => None,
        }
    }

    /// The inventory stored for a player.
    pub fn inventory(&self, player_id: &String) -> (res: Option<&InventoryData>)
        ensures
            match res {
                Some(inventory) => self@.inventories.contains_key(player_id@)
                    && inventory.deep_view() == self@.inventories[player_id@],
                None => !self@.inventories.contains_key(player_id@),
            },
    {
        self.core.player_inventories.get(player_id)
    }

    /// The quest log stored for a player.
    pub fn quests(&self, player_id: &String) -> (res: Option<&Vec<QuestData>>)
        ensures
            match res {
                Some(log) => self@.quests.contains_key(player_id@) && log.deep_view()
                    == self@.quests[player_id@],
                None => !self@.quests.contains_key(player_id@),
            },
    {
        self.core.player_quests.get(player_id)
    }

    /// The record stored under a battle id.
    pub fn battle_record(&self, battle_id: &String) -> (res: Option<&BattleRecord>)
        ensures
            match res {
                Some(record) => self@.battles.contains_key(battle_id@) && record.deep_view()
                    == self@.battles[battle_id@],
                None => !self@.battles.contains_key(battle_id@),
            },
    {
        self.core.battle_records.get(battle_id)
    }

    /// The ids of a player's battles, one for each fact that was recorded
    /// of the player, in the order recorded.
    pub fn player_battles(&self, player_id: &String) -> (res: Option<&Vec<String>>)
        ensures
            match res {
                Some(history) => self@.player_battles.contains_key(player_id@)
                    && history.deep_view() == self@.player_battles[player_id@],
                None => !self@.player_battles.contains_key(player_id@),
            },
    {
        self.core.player_battles.get(player_id)
    }

    /// Every fact that was recorded under a battle id, each once, in the
    /// order and at the time at which it was first recorded.
    pub fn battle_facts(&self, battle_id: &String) -> (res: Option<&Vec<BattleRecord>>)
        ensures
            match res {
                Some(facts) => self@.battle_facts.contains_key(battle_id@) && facts.deep_view()
                    == self@.battle_facts[battle_id@],
                None => !self@.battle_facts.contains_key(battle_id@),
            },
    {
        self.core.battle_facts.get(battle_id)
    }

    /// The guild stored under a guild id. No member is listed twice.
    pub fn guild(&self, guild_id: &String) -> (res: Option<&GuildData>)
        ensures
            match res {
                Some(guild) => self@.guilds.contains_key(guild_id@) && guild.deep_view()
                    == self@.guilds[guild_id@] && guild.deep_view().members.no_duplicates(),
                None => !self@.guilds.contains_key(guild_id@),
            },
    {
        proof {
            use_type_invariant(self);
        }
        self.core.guilds.get(guild_id)
    }

    /// The guild that a player joined last.
    pub fn player_guild(&self, player_id: &String) -> (res: Option<&String>)
        ensures
            match res {
                Some(guild_id) => self@.player_guilds.contains_key(player_id@) && guild_id@
                    == self@.player_guilds[player_id@],
                None => !self@.player_guilds.contains_key(player_id@),
            },
    {
        self.core.player_guilds.get(player_id)
    }

    /// The players for whom a join request to a guild was sent out.
    pub fn guild_join_requests(&self, guild_id: &String) -> (res: Option<&Vec<String>>)
        ensures
            match res {
                Some(waiting) => self@.guild_join_requests.contains_key(guild_id@)
                    && waiting.deep_view() == self@.guild_join_requests[guild_id@],
                None => !self@.guild_join_requests.contains_key(guild_id@),
            },
    {
        self.core.guild_join_requests.get(guild_id)
    }

    /// The note of the migration that was started for a player.
    pub fn player_transfer_request(&self, player_id: &String) -> (res: Option<
        &PlayerTransferRequest,
    >)
        ensures
            match res {
                Some(request) => self@.transfer_requests.contains_key(player_id@)
                    && request.deep_view() == self@.transfer_requests[player_id@],
                None => !self@.transfer_requests.contains_key(player_id@),
            },
    {
        self.core.player_transfer_requests.get(player_id)
    }

    /// The world region of the ledger.
    pub fn world_region(&self) -> (region: &String)
        ensures
            region@ == self@.world_region,
    {
        &self.core.world_region
    }
}

} // verus!
