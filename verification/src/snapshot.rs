//! A ledger's content as plain lists, for the layer that persists it, and
//! the checks by which a ledger is rebuilt from such lists.

use vstd::prelude::*;
use crate::ledger::{same_fact, same_record};
use crate::lists::{distinct, list_contains};
use crate::model::{fact_fits, facts_fit, same_battle, GameModel};
use crate::state::{
    BattleRecord, GuildData, InventoryData, PlayerData, PlayerTransferRequest, QuestData,
};
use crate::table::{entry_keys, entry_map, lemma_entry_key, lemma_entry_map, Table};

verus! {

/// Everything that a game ledger holds, table by table, as lists of pairs
/// of a key and its value.
pub struct GameSnapshot {
    pub player_states: Vec<(String, PlayerData)>,
    pub player_inventories: Vec<(String, InventoryData)>,
    pub player_quests: Vec<(String, Vec<QuestData>)>,
    pub battle_records: Vec<(String, BattleRecord)>,
    pub battle_facts: Vec<(String, Vec<BattleRecord>)>,
    pub guilds: Vec<(String, GuildData)>,
    pub player_guilds: Vec<(String, String)>,
    pub player_battles: Vec<(String, Vec<String>)>,
    pub guild_join_requests: Vec<(String, Vec<String>)>,
    pub player_transfer_requests: Vec<(String, PlayerTransferRequest)>,
    pub world_region: String,
}

impl GameSnapshot {
    /// Whether no list holds a key twice.
    pub open spec fn keyed(&self) -> bool {
        &&& entry_keys(self.player_states@).no_duplicates()
        &&& entry_keys(self.player_inventories@).no_duplicates()
        &&& entry_keys(self.player_quests@).no_duplicates()
        &&& entry_keys(self.battle_records@).no_duplicates()
        &&& entry_keys(self.battle_facts@).no_duplicates()
        &&& entry_keys(self.guilds@).no_duplicates()
        &&& entry_keys(self.player_guilds@).no_duplicates()
        &&& entry_keys(self.player_battles@).no_duplicates()
        &&& entry_keys(self.guild_join_requests@).no_duplicates()
        &&& entry_keys(self.player_transfer_requests@).no_duplicates()
    }

    /// The ledger that the lists stand for.
    pub open spec fn model(&self) -> GameModel {
        GameModel {
            players: entry_map(self.player_states@),
            inventories: entry_map(self.player_inventories@),
            quests: entry_map(self.player_quests@),
            battles: entry_map(self.battle_records@),
            battle_facts: entry_map(self.battle_facts@),
            guilds: entry_map(self.guilds@),
            player_guilds: entry_map(self.player_guilds@),
            player_battles: entry_map(self.player_battles@),
            guild_join_requests: entry_map(self.guild_join_requests@),
            transfer_requests: entry_map(self.player_transfer_requests@),
            world_region: self.world_region@,
        }
    }
}

/// Whether no guild of a table lists a member twice.
pub fn guilds_distinct(guilds: &Table<GuildData>) -> (res: bool)
    ensures
        res == (forall|g: Seq<char>| #[trigger]
            guilds@.contains_key(g) ==> guilds@[g].members.no_duplicates()),
{
    let pairs = guilds.pairs();
    let mut i: usize = 0;
    while i < pairs.len()
        invariant
            i <= pairs@.len(),
            entry_keys(pairs@).no_duplicates(),
            entry_map(pairs@) == guilds@,
            forall|j: int| 0 <= j < i ==> (#[trigger] pairs@[j]).1.deep_view().members.no_duplicates(),
        decreases pairs@.len() - i,
    {
        if !distinct(&pairs[i].1.members) {
            proof {
                lemma_entry_map(pairs@, i as int);
            }
            return false;
        }
        i += 1;
    }
    proof {
        assert forall|g: Seq<char>| #[trigger] guilds@.contains_key(g) implies guilds@[g].members.no_duplicates() by {
            lemma_entry_key(pairs@, g);
        }
    }
    true
}

/// Whether a fact is a fact of the battle id and the id stands in the
/// history of the fact's player.
pub fn fact_in_place(histories: &Table<Vec<String>>, battle_id: &String, fact: &BattleRecord) -> (res:
    bool)
    ensures
        res == fact_fits(histories@, battle_id@, fact.deep_view()),
{
    if !(fact.battle_id == *battle_id) {
        return false;
    }
    match histories.get(&fact.player_id) {
        Some(history) => list_contains(history, battle_id),
        None => false,
    }
}

/// Whether the facts under a battle id are in order: facts of that id, no
/// two of them the same, the id in the history of each fact's player.
pub fn facts_in_place(histories: &Table<Vec<String>>, battle_id: &String, facts: &Vec<BattleRecord>) -> (res:
    bool)
    ensures
        res == facts_fit(histories@, battle_id@, facts.deep_view()),
{
    let ghost models = facts.deep_view();
    let mut i: usize = 0;
    while i < facts.len()
        invariant
            i <= facts@.len(),
            models == facts.deep_view(),
            forall|a: int, b: int|
                0 <= a < b < i ==> !same_battle(
                    #[trigger] models[a],
                    #[trigger] models[b],
                ),
            forall|a: int| 0 <= a < i ==> fact_fits(histories@, battle_id@, #[trigger] models[a]),
        decreases facts@.len() - i,
    {
        if !fact_in_place(histories, battle_id, &facts[i]) {
            assert(!fact_fits(histories@, battle_id@, models[i as int]));
            return false;
        }
        let mut j: usize = 0;
        while j < i
            invariant
                j <= i < facts@.len(),
                models == facts.deep_view(),
                forall|a: int|
                    0 <= a < j ==> !same_battle(
                        #[trigger] models[a],
                        models[i as int],
                    ),
            decreases i - j,
        {
            if same_fact(&facts[j], &facts[i]) {
                assert(same_battle(models[j as int], models[i as int]));
                return false;
            }
            j += 1;
        }
        i += 1;
    }
    true
}

/// Whether the facts under every battle id of a table are in order.
pub fn all_facts_in_place(facts: &Table<Vec<BattleRecord>>, histories: &Table<Vec<String>>) -> (res:
    bool)
    ensures
        res == (forall|b: Seq<char>| #[trigger]
            facts@.contains_key(b) ==> facts_fit(histories@, b, facts@[b])),
{
    let pairs = facts.pairs();
    let mut i: usize = 0;
    while i < pairs.len()
        invariant
            i <= pairs@.len(),
            entry_keys(pairs@).no_duplicates(),
            entry_map(pairs@) == facts@,
            forall|j: int|
                0 <= j < i ==> facts_fit(
                    histories@,
                    (#[trigger] pairs@[j]).0@,
                    pairs@[j].1.deep_view(),
                ),
        decreases pairs@.len() - i,
    {
        if !facts_in_place(histories, &pairs[i].0, &pairs[i].1) {
            proof {
                lemma_entry_map(pairs@, i as int);
            }
            return false;
        }
        i += 1;
    }
    proof {
        assert forall|b: Seq<char>| #[trigger] facts@.contains_key(b) implies facts_fit(
            histories@,
            b,
            facts@[b],
        ) by {
            lemma_entry_key(pairs@, b);
        }
    }
    true
}

/// Whether the record under a battle id is the fact that was recorded
/// under the id last.
pub fn record_is_latest(facts: &Table<Vec<BattleRecord>>, battle_id: &String, record: &BattleRecord) -> (res:
    bool)
    ensures
        res == (facts@.contains_key(battle_id@) && facts@[battle_id@].len() > 0
            && facts@[battle_id@].last() == record.deep_view()),
{
    match facts.get(battle_id) {
        Some(list) => {
            if list.len() == 0 {
                return false;
            }
            same_record(&list[list.len() - 1], record)
        },
        None => false,
    }
}

/// Whether every record of a table is the fact that was recorded under
/// its battle id last.
pub fn records_are_latest(battles: &Table<BattleRecord>, facts: &Table<Vec<BattleRecord>>) -> (res:
    bool)
    ensures
        res == (forall|b: Seq<char>| #[trigger]
            battles@.contains_key(b) ==> facts@.contains_key(b) && facts@[b].len() > 0
                && facts@[b].last() == battles@[b]),
{
    let pairs = battles.pairs();
    let mut i: usize = 0;
    while i < pairs.len()
        invariant
            i <= pairs@.len(),
            entry_keys(pairs@).no_duplicates(),
            entry_map(pairs@) == battles@,
            forall|j: int|
                0 <= j < i ==> {
                    let pair = #[trigger] pairs@[j];
                    facts@.contains_key(pair.0@) && facts@[pair.0@].len() > 0
                        && facts@[pair.0@].last() == pair.1.deep_view()
                },
        decreases pairs@.len() - i,
    {
        if !record_is_latest(facts, &pairs[i].0, &pairs[i].1) {
            proof {
                lemma_entry_map(pairs@, i as int);
            }
            return false;
        }
        i += 1;
    }
    proof {
        assert forall|b: Seq<char>| #[trigger] battles@.contains_key(b) implies facts@.contains_key(b)
            && facts@[b].len() > 0 && facts@[b].last() == battles@[b] by {
            let j = lemma_entry_key(pairs@, b);
            let pair = pairs@[j];
            assert(facts@[pair.0@].last() == pair.1.deep_view());
        }
    }
    true
}

} // verus!
