//! The hub's content as plain lists, for the layer that persists it, and
//! the checks by which a hub is rebuilt from such lists.

use vstd::prelude::*;
use crate::hub_ledger::same_submission;
use crate::lists::distinct;
use crate::hub_state::{
    entries_fit, entry_fits, record_fits, records_fit, AchievementRecord, HubModel,
    PlayerAchievement, PlayerAchievementModel, SubmissionModel, WorldChainInfo,
};
use crate::table::{entry_keys, entry_map, lemma_entry_key, lemma_entry_map, Table};

verus! {

/// Everything that the hub holds: its tables as lists of pairs of a key
/// and its value, and its counters.
pub struct HubSnapshot {
    pub player_achievements: Vec<(String, Vec<PlayerAchievement>)>,
    pub world_chains: Vec<(String, WorldChainInfo)>,
    pub registrations: Vec<(String, Vec<String>)>,
    pub all_achievements: Vec<(String, Vec<AchievementRecord>)>,
    pub total_chains: u64,
    pub total_achievements: u64,
}

impl HubSnapshot {
    /// Whether no list holds a key twice.
    pub open spec fn keyed(&self) -> bool {
        &&& entry_keys(self.player_achievements@).no_duplicates()
        &&& entry_keys(self.world_chains@).no_duplicates()
        &&& entry_keys(self.registrations@).no_duplicates()
        &&& entry_keys(self.all_achievements@).no_duplicates()
    }

    /// The hub that the lists and counters stand for.
    pub open spec fn model(&self) -> HubModel {
        HubModel {
            player_achievements: entry_map(self.player_achievements@),
            world_chains: entry_map(self.world_chains@),
            registrations: entry_map(self.registrations@),
            all_achievements: entry_map(self.all_achievements@),
            total_chains: self.total_chains,
            total_achievements: self.total_achievements,
        }
    }
}

/// Whether an entry of the list of `player_id` stands for a submission.
pub fn entry_stands_for(entry: &PlayerAchievement, player_id: &String, record: &AchievementRecord) -> (res:
    bool)
    ensures
        res == (entry.deep_view().of_player(player_id@) == record.deep_view()),
{
    entry.achievement_id == record.achievement_id && *player_id == record.player_id
        && entry.chain_id.same(&record.chain_id) && entry.timestamp == record.timestamp
        && entry.metadata == record.metadata
}

/// Whether two entries of a player's list are the same.
pub fn same_entry(a: &PlayerAchievement, b: &PlayerAchievement) -> (same: bool)
    ensures
        same == (a.deep_view() == b.deep_view()),
{
    a.achievement_id == b.achievement_id && a.chain_id.same(&b.chain_id) && a.timestamp
        == b.timestamp && a.metadata == b.metadata
}

/// Whether a submission stands under its own achievement id and in the
/// list of its player.
pub fn record_in_place(
    players: &Table<Vec<PlayerAchievement>>,
    achievement_id: &String,
    record: &AchievementRecord,
) -> (res: bool)
    ensures
        res == record_fits(players@, achievement_id@, record.deep_view()),
{
    if !(record.achievement_id == *achievement_id) {
        return false;
    }
    let ghost wanted = record.deep_view().for_player();
    match players.get(&record.player_id) {
        Some(entries) => {
            let mut i: usize = 0;
            while i < entries.len()
                invariant
                    i <= entries@.len(),
                    wanted == record.deep_view().for_player(),
                    record.achievement_id@ == achievement_id@,
                    players@.contains_key(record.player_id@),
                    players@[record.player_id@] == entries.deep_view(),
                    forall|j: int| 0 <= j < i ==> entries.deep_view()[j] != wanted,
                decreases entries@.len() - i,
            {
                if entry_stands_for(&entries[i], &record.player_id, record) {
                    assert(entries.deep_view()[i as int] == wanted);
                    return true;
                }
                i += 1;
            }
            false
        },
        None => false,
    }
}

/// Whether an entry of the list of `player_id` stands for a submission
/// that the hub holds.
pub fn entry_in_place(
    achievements: &Table<Vec<AchievementRecord>>,
    player_id: &String,
    entry: &PlayerAchievement,
) -> (res: bool)
    ensures
        res == entry_fits(achievements@, player_id@, entry.deep_view()),
{
    let ghost wanted = entry.deep_view().of_player(player_id@);
    match achievements.get(&entry.achievement_id) {
        Some(records) => {
            let mut i: usize = 0;
            while i < records.len()
                invariant
                    i <= records@.len(),
                    wanted == entry.deep_view().of_player(player_id@),
                    achievements@.contains_key(entry.achievement_id@),
                    achievements@[entry.achievement_id@] == records.deep_view(),
                    forall|j: int| 0 <= j < i ==> records.deep_view()[j] != wanted,
                decreases records@.len() - i,
            {
                if entry_stands_for(entry, player_id, &records[i]) {
                    assert(records.deep_view()[i as int] == wanted);
                    return true;
                }
                i += 1;
            }
            false
        },
        None => false,
    }
}

/// Whether the submissions under an achievement id are each there once,
/// under their own id, and in the list of their player.
pub fn records_in_place(
    players: &Table<Vec<PlayerAchievement>>,
    achievement_id: &String,
    records: &Vec<AchievementRecord>,
) -> (res: bool)
    ensures
        res == records_fit(players@, achievement_id@, records.deep_view()),
{
    let ghost facts = records.deep_view();
    let mut i: usize = 0;
    while i < records.len()
        invariant
            i <= records@.len(),
            facts == records.deep_view(),
            forall|a: int, b: int| 0 <= a < b < i ==> facts[a] != facts[b],
            forall|a: int| 0 <= a < i ==> record_fits(players@, achievement_id@, #[trigger] facts[a]),
        decreases records@.len() - i,
    {
        if !record_in_place(players, achievement_id, &records[i]) {
            assert(!record_fits(players@, achievement_id@, facts[i as int]));
            return false;
        }
        let mut j: usize = 0;
        while j < i
            invariant
                j <= i < records@.len(),
                facts == records.deep_view(),
                forall|a: int| 0 <= a < j ==> facts[a] != facts[i as int],
            decreases i - j,
        {
            if same_submission(&records[j], &records[i]) {
                assert(facts[j as int] == facts[i as int]);
                return false;
            }
            j += 1;
        }
        i += 1;
    }
    true
}

/// Whether the entries of a player's list are each there once and stand
/// for a submission that the hub holds.
pub fn entries_in_place(
    achievements: &Table<Vec<AchievementRecord>>,
    player_id: &String,
    entries: &Vec<PlayerAchievement>,
) -> (res: bool)
    ensures
        res == entries_fit(achievements@, player_id@, entries.deep_view()),
{
    let ghost items = entries.deep_view();
    let mut i: usize = 0;
    while i < entries.len()
        invariant
            i <= entries@.len(),
            items == entries.deep_view(),
            forall|a: int, b: int| 0 <= a < b < i ==> items[a] != items[b],
            forall|a: int| 0 <= a < i ==> entry_fits(achievements@, player_id@, #[trigger] items[a]),
        decreases entries@.len() - i,
    {
        if !entry_in_place(achievements, player_id, &entries[i]) {
            assert(!entry_fits(achievements@, player_id@, items[i as int]));
            return false;
        }
        let mut j: usize = 0;
        while j < i
            invariant
                j <= i < entries@.len(),
                items == entries.deep_view(),
                forall|a: int| 0 <= a < j ==> items[a] != items[i as int],
            decreases i - j,
        {
            if same_entry(&entries[j], &entries[i]) {
                assert(items[j as int] == items[i as int]);
                return false;
            }
            j += 1;
        }
        i += 1;
    }
    true
}

/// Whether all submissions of a hub are in place.
pub fn all_records_in_place(
    players: &Table<Vec<PlayerAchievement>>,
    achievements: &Table<Vec<AchievementRecord>>,
) -> (res: bool)
    ensures
        res == (forall|a: Seq<char>| #[trigger]
            achievements@.contains_key(a) ==> records_fit(players@, a, achievements@[a])),
{
    let pairs = achievements.pairs();
    let mut i: usize = 0;
    while i < pairs.len()
        invariant
            i <= pairs@.len(),
            entry_keys(pairs@).no_duplicates(),
            entry_map(pairs@) == achievements@,
            forall|j: int|
                0 <= j < i ==> records_fit(
                    players@,
                    (#[trigger] pairs@[j]).0@,
                    pairs@[j].1.deep_view(),
                ),
        decreases pairs@.len() - i,
    {
        if !records_in_place(players, &pairs[i].0, &pairs[i].1) {
            proof {
                lemma_entry_map(pairs@, i as int);
            }
            return false;
        }
        i += 1;
    }
    proof {
        assert forall|a: Seq<char>| #[trigger] achievements@.contains_key(a) implies records_fit(
            players@,
            a,
            achievements@[a],
        ) by {
            lemma_entry_key(pairs@, a);
        }
    }
    true
}

/// Whether all entries of the players' lists of a hub are in place.
pub fn all_entries_in_place(
    achievements: &Table<Vec<AchievementRecord>>,
    players: &Table<Vec<PlayerAchievement>>,
) -> (res: bool)
    ensures
        res == (forall|p: Seq<char>| #[trigger]
            players@.contains_key(p) ==> entries_fit(achievements@, p, players@[p])),
{
    let pairs = players.pairs();
    let mut i: usize = 0;
    while i < pairs.len()
        invariant
            i <= pairs@.len(),
            entry_keys(pairs@).no_duplicates(),
            entry_map(pairs@) == players@,
            forall|j: int|
                0 <= j < i ==> entries_fit(
                    achievements@,
                    (#[trigger] pairs@[j]).0@,
                    pairs@[j].1.deep_view(),
                ),
        decreases pairs@.len() - i,
    {
        if !entries_in_place(achievements, &pairs[i].0, &pairs[i].1) {
            proof {
                lemma_entry_map(pairs@, i as int);
            }
            return false;
        }
        i += 1;
    }
    proof {
        assert forall|p: Seq<char>| #[trigger] players@.contains_key(p) implies entries_fit(
            achievements@,
            p,
            players@[p],
        ) by {
            lemma_entry_key(pairs@, p);
        }
    }
    true
}

/// Whether no ledger of a table is noted twice for one region.
pub fn regions_distinct(registrations: &Table<Vec<String>>) -> (res: bool)
    ensures
        res == (forall|c: Seq<char>| #[trigger]
            registrations@.contains_key(c) ==> registrations@[c].no_duplicates()),
{
    let pairs = registrations.pairs();
    let mut i: usize = 0;
    while i < pairs.len()
        invariant
            i <= pairs@.len(),
            entry_keys(pairs@).no_duplicates(),
            entry_map(pairs@) == registrations@,
            forall|j: int| 0 <= j < i ==> (#[trigger] pairs@[j]).1.deep_view().no_duplicates(),
        decreases pairs@.len() - i,
    {
        if !distinct(&pairs[i].1) {
            proof {
                lemma_entry_map(pairs@, i as int);
            }
            return false;
        }
        i += 1;
    }
    proof {
        assert forall|c: Seq<char>| #[trigger] registrations@.contains_key(c) implies registrations@[c].no_duplicates() by {
            lemma_entry_key(pairs@, c);
        }
    }
    true
}

/// Whether a ledger stands in the register with the region for which it
/// registered last.
pub fn chain_is_latest(registrations: &Table<Vec<String>>, chain: &String, info: &WorldChainInfo) -> (res:
    bool)
    ensures
        res == (registrations@.contains_key(chain@) && registrations@[chain@].len() > 0
            && registrations@[chain@].last() == info.world_region@),
{
    match registrations.get(chain) {
        Some(regions) => {
            if regions.len() == 0 {
                return false;
            }
            regions[regions.len() - 1] == info.world_region
        },
        None => false,
    }
}

/// Whether every ledger of the register stands there with the region for
/// which it registered last.
pub fn chains_are_latest(chains: &Table<WorldChainInfo>, registrations: &Table<Vec<String>>) -> (res:
    bool)
    ensures
        res == (forall|c: Seq<char>| #[trigger]
            chains@.contains_key(c) ==> registrations@.contains_key(c)
                && registrations@[c].len() > 0 && registrations@[c].last()
                == chains@[c].world_region),
{
    let pairs = chains.pairs();
    let mut i: usize = 0;
    while i < pairs.len()
        invariant
            i <= pairs@.len(),
            entry_keys(pairs@).no_duplicates(),
            entry_map(pairs@) == chains@,
            forall|j: int|
                0 <= j < i ==> {
                    let pair = #[trigger] pairs@[j];
                    registrations@.contains_key(pair.0@) && registrations@[pair.0@].len() > 0
                        && registrations@[pair.0@].last() == pair.1.world_region@
                },
        decreases pairs@.len() - i,
    {
        if !chain_is_latest(registrations, &pairs[i].0, &pairs[i].1) {
            proof {
                lemma_entry_map(pairs@, i as int);
            }
            return false;
        }
        i += 1;
    }
    proof {
        assert forall|c: Seq<char>| #[trigger] chains@.contains_key(c) implies registrations@.contains_key(c)
            && registrations@[c].len() > 0 && registrations@[c].last()
            == chains@[c].world_region by {
            let j = lemma_entry_key(pairs@, c);
            let pair = pairs@[j];
            assert(registrations@[pair.0@].last() == pair.1.world_region@);
        }
    }
    true
}

/// Whether only ledgers of the register have registrations noted.
pub fn regions_are_registered(registrations: &Table<Vec<String>>, chains: &Table<WorldChainInfo>) -> (res:
    bool)
    ensures
        res == (forall|c: Seq<char>| #[trigger]
            registrations@.contains_key(c) ==> chains@.contains_key(c)),
{
    let pairs = registrations.pairs();
    let mut i: usize = 0;
    while i < pairs.len()
        invariant
            i <= pairs@.len(),
            entry_keys(pairs@).no_duplicates(),
            entry_map(pairs@) == registrations@,
            forall|j: int| 0 <= j < i ==> chains@.contains_key((#[trigger] pairs@[j]).0@),
        decreases pairs@.len() - i,
    {
        if !chains.contains_key(&pairs[i].0) {
            proof {
                lemma_entry_map(pairs@, i as int);
            }
            return false;
        }
        i += 1;
    }
    proof {
        assert forall|c: Seq<char>| #[trigger] registrations@.contains_key(c) implies chains@.contains_key(
            c,
        ) by {
            let j = lemma_entry_key(pairs@, c);
            assert(chains@.contains_key(pairs@[j].0@));
        }
    }
    true
}

} // verus!
