//! The state of the hub ledger, and the requests that change it.

use vstd::prelude::*;
use crate::chain::ChainId;
use crate::error::{DecodeField, LedgerError, StoreCause};
use crate::hub_laws::{law_register_keeps_valid, law_submit_given_keeps_valid};
use crate::hub_state::{
    AchievementRecord, HubModel, PlayerAchievement, WorldChainInfo,
};
use crate::hub_snapshot::{
    all_entries_in_place, all_records_in_place, chains_are_latest, regions_are_registered,
    regions_distinct, HubSnapshot,
};
use crate::lists::{list_at, list_contains};
use crate::payload::is_json;
use crate::table::Table;

verus! {

/// Whether two submissions state the same fact.
pub fn same_submission(a: &AchievementRecord, b: &AchievementRecord) -> (same: bool)
    ensures
        same == (a.deep_view() == b.deep_view()),
{
    a.achievement_id == b.achievement_id && a.player_id == b.player_id && a.chain_id.same(
        &b.chain_id,
    ) && a.timestamp == b.timestamp && a.metadata == b.metadata
}

/// Whether a list of submissions holds a fact.
pub fn holds_submission(list: &Vec<AchievementRecord>, fact: &AchievementRecord) -> (found: bool)
    ensures
        found == list.deep_view().contains(fact.deep_view()),
{
    let mut i: usize = 0;
    while i < list.len()
        invariant
            i <= list@.len(),
            forall|j: int| 0 <= j < i ==> list.deep_view()[j] != fact.deep_view(),
        decreases list@.len() - i,
    {
        if same_submission(&list[i], fact) {
            assert(list.deep_view()[i as int] == fact.deep_view());
            return true;
        }
        i += 1;
    }
    false
}

/// The tables and counters of the hub.
struct HubCore {
    player_achievements: Table<Vec<PlayerAchievement>>,
    world_chains: Table<WorldChainInfo>,
    registrations: Table<Vec<String>>,
    all_achievements: Table<Vec<AchievementRecord>>,
    total_chains: u64,
    total_achievements: u64,
}

impl HubCore {
    spec fn model(&self) -> HubModel {
        HubModel {
            player_achievements: self.player_achievements@,
            world_chains: self.world_chains@,
            registrations: self.registrations@,
            all_achievements: self.all_achievements@,
            total_chains: self.total_chains,
            total_achievements: self.total_achievements,
        }
    }

    fn empty() -> (core: Self)
        ensures
            core.model() == HubModel::empty(),
    {
        HubCore {
            player_achievements: Table::new(),
            world_chains: Table::new(),
            registrations: Table::new(),
            all_achievements: Table::new(),
            total_chains: 0,
            total_achievements: 0,
        }
    }

    fn submit(&mut self, record: AchievementRecord, metadata_is_json: bool) -> (res: Result<
        (),
        LedgerError,
    >)
        requires
            old(self).model().valid(),
        ensures
            final(self).model() == old(self).model().submit_given(
                record.deep_view(),
                metadata_is_json,
            ),
            final(self).model().valid(),
            res == old(self).model().submit_result_given(record.deep_view(), metadata_is_json),
    {
        let ghost before = self.model();
        let ghost fact = record.deep_view();
        proof {
            law_submit_given_keeps_valid(before, fact, metadata_is_json);
        }
        let seen = match self.all_achievements.get(&record.achievement_id) {
            Some(records) => holds_submission(records, &record),
            None => false,
        };
        if seen {
            return Err(LedgerError::Duplicate);
        }
        assert(!before.seen(fact)) by {
            if !before.all_achievements.contains_key(fact.achievement_id) {
                assert(!Seq::<crate::hub_state::SubmissionModel>::empty().contains(fact));
            }
        }
        if !metadata_is_json {
            return Err(LedgerError::DecodeError { field: DecodeField::Metadata });
        }
        if self.total_achievements == u64::MAX {
            return Err(LedgerError::StoreError { cause: StoreCause::CounterExhausted });
        }
        let entry = PlayerAchievement {
            achievement_id: record.achievement_id.clone(),
            chain_id: record.chain_id.duplicate(),
            timestamp: record.timestamp,
            metadata: record.metadata.clone(),
        };
        let mut entries = match self.player_achievements.remove(&record.player_id) {
            Some(entries) => entries,
            None => Vec::new(),
        };
        let ghost earlier_entries = entries.deep_view();
        assert(earlier_entries =~= list_at(before.player_achievements, fact.player_id));
        entries.push(entry);
        assert(entries.deep_view() =~= earlier_entries.push(fact.for_player()));
        self.player_achievements.insert(record.player_id.clone(), entries);
        assert(self.player_achievements@ =~= before.player_achievements.insert(
            fact.player_id,
            earlier_entries.push(fact.for_player()),
        ));
        let mut records = match self.all_achievements.remove(&record.achievement_id) {
            Some(records) => records,
            None => Vec::new(),
        };
        let ghost earlier_records = records.deep_view();
        assert(earlier_records =~= list_at(before.all_achievements, fact.achievement_id));
        let key = record.achievement_id.clone();
        records.push(record);
        assert(records.deep_view() =~= earlier_records.push(fact));
        self.all_achievements.insert(key, records);
        assert(self.all_achievements@ =~= before.all_achievements.insert(
            fact.achievement_id,
            earlier_records.push(fact),
        ));
        self.total_achievements = self.total_achievements + 1;
        Ok(())
    }

    fn register(&mut self, chain_id: &ChainId, world_region: String, now: u64) -> (res: Result<
        (),
        LedgerError,
    >)
        requires
            old(self).model().valid(),
        ensures
            final(self).model() == old(self).model().register(
                chain_id.deep_view(),
                world_region@,
                now,
            ),
            final(self).model().valid(),
            res == old(self).model().register_result(chain_id.deep_view(), world_region@),
    {
        let ghost before = self.model();
        let ghost chain = chain_id.deep_view();
        let ghost region = world_region@;
        proof {
            law_register_keeps_valid(before, chain, region, now);
        }
        let seen = match self.registrations.get(&chain_id.name) {
            Some(regions) => list_contains(regions, &world_region),
            None => false,
        };
        if seen {
            return Err(LedgerError::Duplicate);
        }
        if self.total_chains == u64::MAX {
            return Err(LedgerError::StoreError { cause: StoreCause::CounterExhausted });
        }
        let mut regions = match self.registrations.remove(&chain_id.name) {
            Some(regions) => regions,
            None => Vec::new(),
        };
        let ghost earlier = regions.deep_view();
        assert(earlier =~= list_at(before.registrations, chain));
        regions.push(world_region.clone());
        assert(regions.deep_view() =~= earlier.push(region));
        self.registrations.insert(chain_id.name.clone(), regions);
        assert(self.registrations@ =~= before.registrations.insert(chain, earlier.push(region)));
        let info = WorldChainInfo { world_region, registration_timestamp: now, active: true };
        self.world_chains.insert(chain_id.name.clone(), info);
        self.total_chains = self.total_chains + 1;
        Ok(())
    }
}

/// Everything that the hub holds. Its view is a [`HubModel`], which is
/// valid at all times.
pub struct HubState {
    core: HubCore,
}

impl View for HubState {
    type V = HubModel;

    closed spec fn view(&self) -> HubModel {
        self.core.model()
    }
}

impl HubState {
    #[verifier::type_invariant]
    closed spec fn well_formed(self) -> bool {
        self.core.model().valid()
    }

    /// The empty hub: nothing registered, nothing submitted, both counters
    /// at zero.
    pub fn new() -> (state: Self)
        ensures
            state@ == HubModel::empty(),
            state@.valid(),
    {
        HubState { core: HubCore::empty() }
    }

    /// Takes the hub apart into lists and counters, for the layer that
    /// persists it.
    pub fn into_snapshot(self) -> (snapshot: HubSnapshot)
        ensures
            snapshot.keyed(),
            snapshot.model() == self@,
            snapshot.model().valid(),
    {
        proof {
            use_type_invariant(&self);
        }
        let core = self.core;
        HubSnapshot {
            player_achievements: core.player_achievements.into_pairs(),
            world_chains: core.world_chains.into_pairs(),
            registrations: core.registrations.into_pairs(),
            all_achievements: core.all_achievements.into_pairs(),
            total_chains: core.total_chains,
            total_achievements: core.total_achievements,
        }
    }

    /// Rebuilds a hub from lists and counters. `None` exactly where a list
    /// holds a key twice or the lists and counters stand for no valid hub.
    pub fn restore(snapshot: HubSnapshot) -> (res: Option<Self>)
        ensures
            match res {
                Some(state) => snapshot.keyed() && snapshot.model().valid() && state@
                    == snapshot.model(),
                None => !(snapshot.keyed() && snapshot.model().valid()),
            },
    {
        let ghost wanted = snapshot.model();
        let player_achievements = match Table::from_pairs(snapshot.player_achievements) {
            Some(table) => table,
            None => { return None; },
        };
        let world_chains = match Table::from_pairs(snapshot.world_chains) {
            Some(table) => table,
            None => { return None; },
        };
        let registrations = match Table::from_pairs(snapshot.registrations) {
            Some(table) => table,
            None => { return None; },
        };
        let all_achievements = match Table::from_pairs(snapshot.all_achievements) {
            Some(table) => table,
            None => { return None; },
        };
        assert(player_achievements@ == wanted.player_achievements);
        assert(world_chains@ == wanted.world_chains);
        assert(registrations@ == wanted.registrations);
        assert(all_achievements@ == wanted.all_achievements);
        if !regions_distinct(&registrations) {
            return None;
        }
        if !chains_are_latest(&world_chains, &registrations) {
            return None;
        }
        if !regions_are_registered(&registrations, &world_chains) {
            return None;
        }
        if !all_records_in_place(&player_achievements, &all_achievements) {
            return None;
        }
        if !all_entries_in_place(&all_achievements, &player_achievements) {
            return None;
        }
        let core = HubCore {
            player_achievements,
            world_chains,
            registrations,
            all_achievements,
            total_chains: snapshot.total_chains,
            total_achievements: snapshot.total_achievements,
        };
        Some(HubState { core })
    }

    /// Does nothing when run. To the verifier it shows that the hub is
    /// valid, which holds of every hub at all times.
    pub fn witness_valid(&self)
        ensures
            self@.valid(),
    {
        proof {
            use_type_invariant(self);
        }
    }

    /// Takes in the submission of an achievement. It is refused, and the
    /// hub stays as it was, where the same fact was submitted before (a
    /// duplicate), where the metadata are no JSON (a decode error), or
    /// where the counter is exhausted, in this order. Otherwise the fact is
    /// put last in the list of its player and last among the submissions of
    /// its achievement, and the counter goes up by one.
    pub fn submit_achievement(&mut self, record: AchievementRecord) -> (res: Result<
        (),
        LedgerError,
    >)
        ensures
            final(self)@.valid(),
            final(self)@ == old(self)@.submit(record.deep_view()),
            res == old(self)@.submit_result(record.deep_view()),
    {
        let metadata_is_json = is_json(record.metadata.as_str());
        self.submit_checked(record, metadata_is_json)
    }

    /// Takes in the submission of an achievement whose metadata were read
    /// already: `metadata_is_json` tells whether they are JSON. It is
    /// refused, and the hub stays as it was, where the same fact was
    /// submitted before (a duplicate), where the metadata are no JSON (a
    /// decode error), or where the counter is exhausted, in this order.
    /// Otherwise the fact is put last in the list of its player and last
    /// among the submissions of its achievement, and the counter goes up
    /// by one.
    pub fn submit_checked(&mut self, record: AchievementRecord, metadata_is_json: bool) -> (res:
        Result<(), LedgerError>)
        ensures
            final(self)@.valid(),
            final(self)@ == old(self)@.submit_given(record.deep_view(), metadata_is_json),
            res == old(self)@.submit_result_given(record.deep_view(), metadata_is_json),
    {
        proof {
            use_type_invariant(&*self);
        }
        let mut core = HubCore::empty();
        core::mem::swap(&mut self.core, &mut core);
        let res = core.submit(record, metadata_is_json);
        core::mem::swap(&mut self.core, &mut core);
        res
    }

    /// Sets both counters back to zero and leaves everything else as it
    /// is.
    pub fn reset_counters(&mut self)
        ensures
            final(self)@.valid(),
            final(self)@ == old(self)@.with_counters_reset(),
    {
        proof {
            use_type_invariant(&*self);
        }
        let mut core = HubCore::empty();
        core::mem::swap(&mut self.core, &mut core);
        let ghost before = core.model();
        core.total_chains = 0;
        core.total_achievements = 0;
        assert(core.model() == before.with_counters_reset());
        core::mem::swap(&mut self.core, &mut core);
    }

    /// Registers a game ledger at the time `now`. A ledger that has
    /// registered for the region before is refused as a duplicate, and any
    /// registration is refused where the counter is exhausted; the hub then
    /// stays as it was. Otherwise the ledger is entered as active with its
    /// region and the time, in place of an earlier entry, and the
    /// registration is noted and counted.
    pub fn register_world_chain(&mut self, chain_id: &ChainId, world_region: String, now: u64) -> (res:
        Result<(), LedgerError>)
        ensures
            final(self)@.valid(),
            final(self)@ == old(self)@.register(chain_id.deep_view(), world_region@, now),
            res == old(self)@.register_result(chain_id.deep_view(), world_region@),
    {
        proof {
            use_type_invariant(&*self);
        }
        let mut core = HubCore::empty();
        core::mem::swap(&mut self.core, &mut core);
        let res = core.register(chain_id, world_region, now);
        core::mem::swap(&mut self.core, &mut core);
        res
    }

    /// The achievements of a player, in the order submitted.
    pub fn player_achievements(&self, player_id: &String) -> (res: Option<&Vec<PlayerAchievement>>)
        ensures
            match res {
                Some(entries) => self@.player_achievements.contains_key(player_id@)
                    && entries.deep_view() == self@.player_achievements[player_id@],
                None => !self@.player_achievements.contains_key(player_id@),
            },
    {
        self.core.player_achievements.get(player_id)
    }

    /// All submissions of an achievement, in the order submitted.
    pub fn achievement_records(&self, achievement_id: &String) -> (res: Option<
        &Vec<AchievementRecord>,
    >)
        ensures
            match res {
                Some(records) => self@.all_achievements.contains_key(achievement_id@)
                    && records.deep_view() == self@.all_achievements[achievement_id@],
                None => !self@.all_achievements.contains_key(achievement_id@),
            },
    {
        self.core.all_achievements.get(achievement_id)
    }

    /// The entry of a ledger in the register.
    pub fn world_chain_info(&self, chain_id: &ChainId) -> (res: Option<&WorldChainInfo>)
        ensures
            match res {
                Some(info) => self@.world_chains.contains_key(chain_id.deep_view())
                    && info.deep_view() == self@.world_chains[chain_id.deep_view()],
                None => !self@.world_chains.contains_key(chain_id.deep_view()),
            },
    {
        self.core.world_chains.get(&chain_id.name)
    }

    /// The number of registrations that were taken in.
    pub fn world_chains_count(&self) -> (n: u64)
        ensures
            n == self@.total_chains,
    {
        self.core.total_chains
    }

    /// The regions for which a ledger has registered, each once, in the
    /// order of the registrations.
    pub fn registrations(&self, chain_id: &ChainId) -> (res: Option<&Vec<String>>)
        ensures
            match res {
                Some(regions) => self@.registrations.contains_key(chain_id.deep_view())
                    && regions.deep_view() == self@.registrations[chain_id.deep_view()],
                None => !self@.registrations.contains_key(chain_id.deep_view()),
            },
    {
        self.core.registrations.get(&chain_id.name)
    }

    /// The number of submissions that were taken in.
    pub fn total_achievements_count(&self) -> (n: u64)
        ensures
            n == self@.total_achievements,
    {
        self.core.total_achievements
    }
}

} // verus!
