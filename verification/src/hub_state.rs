//! What the hub ledger holds, and its mathematical model.

use vstd::prelude::*;
use crate::chain::ChainId;
use crate::error::{DecodeField, LedgerError, StoreCause};
use crate::json::json_parse;
use crate::lists::list_at;

verus! {

/// An achievement in the list of the player who earned it.
#[derive(Debug, PartialEq, Eq)]
pub struct PlayerAchievement {
    pub achievement_id: String,
    pub chain_id: ChainId,
    pub timestamp: u64,
    pub metadata: String,
}

/// The model of a [`PlayerAchievement`].
pub struct PlayerAchievementModel {
    pub achievement_id: Seq<char>,
    pub chain_id: Seq<char>,
    pub timestamp: u64,
    pub metadata: Seq<char>,
}

impl DeepView for PlayerAchievement {
    type V = PlayerAchievementModel;

    open spec fn deep_view(&self) -> PlayerAchievementModel {
        PlayerAchievementModel {
            achievement_id: self.achievement_id@,
            chain_id: self.chain_id.deep_view(),
            timestamp: self.timestamp,
            metadata: self.metadata@,
        }
    }
}

/// A game ledger in the hub's register.
#[derive(Debug, PartialEq, Eq)]
pub struct WorldChainInfo {
    pub world_region: String,
    pub registration_timestamp: u64,
    pub active: bool,
}

/// The model of a [`WorldChainInfo`].
pub struct WorldChainModel {
    pub world_region: Seq<char>,
    pub registration_timestamp: u64,
    pub active: bool,
}

impl DeepView for WorldChainInfo {
    type V = WorldChainModel;

    open spec fn deep_view(&self) -> WorldChainModel {
        WorldChainModel {
            world_region: self.world_region@,
            registration_timestamp: self.registration_timestamp,
            active: self.active,
        }
    }
}

/// One submission of an achievement: the whole fact, as it was submitted.
#[derive(Debug, PartialEq, Eq)]
pub struct AchievementRecord {
    pub achievement_id: String,
    pub player_id: String,
    pub chain_id: ChainId,
    pub timestamp: u64,
    pub metadata: String,
}

/// The model of an [`AchievementRecord`]: a submitted fact.
pub struct SubmissionModel {
    pub achievement_id: Seq<char>,
    pub player_id: Seq<char>,
    pub chain_id: Seq<char>,
    pub timestamp: u64,
    pub metadata: Seq<char>,
}

impl DeepView for AchievementRecord {
    type V = SubmissionModel;

    open spec fn deep_view(&self) -> SubmissionModel {
        SubmissionModel {
            achievement_id: self.achievement_id@,
            player_id: self.player_id@,
            chain_id: self.chain_id.deep_view(),
            timestamp: self.timestamp,
            metadata: self.metadata@,
        }
    }
}

impl SubmissionModel {
    /// The fact as it stands in the list of its player.
    pub open spec fn for_player(self) -> PlayerAchievementModel {
        PlayerAchievementModel {
            achievement_id: self.achievement_id,
            chain_id: self.chain_id,
            timestamp: self.timestamp,
            metadata: self.metadata,
        }
    }
}

impl PlayerAchievementModel {
    /// The submission that the entry stands for in the list of `player_id`.
    pub open spec fn of_player(self, player_id: Seq<char>) -> SubmissionModel {
        SubmissionModel {
            achievement_id: self.achievement_id,
            player_id,
            chain_id: self.chain_id,
            timestamp: self.timestamp,
            metadata: self.metadata,
        }
    }
}

/// Whether a submission stands under its own achievement id and in the
/// list of its player.
pub open spec fn record_fits(
    players: Map<Seq<char>, Seq<PlayerAchievementModel>>,
    achievement_id: Seq<char>,
    fact: SubmissionModel,
) -> bool {
    fact.achievement_id == achievement_id && list_at(players, fact.player_id).contains(
        fact.for_player(),
    )
}

/// Whether the submissions under an achievement id are each there once,
/// under their own id, and in the list of their player.
pub open spec fn records_fit(
    players: Map<Seq<char>, Seq<PlayerAchievementModel>>,
    achievement_id: Seq<char>,
    records: Seq<SubmissionModel>,
) -> bool {
    &&& records.no_duplicates()
    &&& forall|i: int|
        0 <= i < records.len() ==> record_fits(players, achievement_id, #[trigger] records[i])
}

/// Whether an entry of a player's list stands for a submission.
pub open spec fn entry_fits(
    achievements: Map<Seq<char>, Seq<SubmissionModel>>,
    player_id: Seq<char>,
    entry: PlayerAchievementModel,
) -> bool {
    list_at(achievements, entry.achievement_id).contains(entry.of_player(player_id))
}

/// Whether the entries of a player's list are each there once and stand
/// for a submission.
pub open spec fn entries_fit(
    achievements: Map<Seq<char>, Seq<SubmissionModel>>,
    player_id: Seq<char>,
    entries: Seq<PlayerAchievementModel>,
) -> bool {
    &&& entries.no_duplicates()
    &&& forall|i: int|
        0 <= i < entries.len() ==> entry_fits(achievements, player_id, #[trigger] entries[i])
}

/// Everything that the hub holds.
pub struct HubModel {
    /// Player id → the player's achievements, in the order submitted.
    pub player_achievements: Map<Seq<char>, Seq<PlayerAchievementModel>>,
    /// Ledger name → the registered ledger, as it registered last.
    pub world_chains: Map<Seq<char>, WorldChainModel>,
    /// Ledger name → every region for which the ledger has registered,
    /// each once, in the order of the registrations. This is the memory by
    /// which a redelivery is told from a new registration.
    pub registrations: Map<Seq<char>, Seq<Seq<char>>>,
    /// Achievement id → all submissions of it, each once, in the order
    /// submitted. This is also the memory by which a redelivery is told
    /// from a new submission.
    pub all_achievements: Map<Seq<char>, Seq<SubmissionModel>>,
    /// The number of registrations that were taken in.
    pub total_chains: u64,
    /// The number of submissions that were taken in.
    pub total_achievements: u64,
}

impl HubModel {
    /// The hub that holds nothing.
    pub open spec fn empty() -> HubModel {
        HubModel {
            player_achievements: Map::empty(),
            world_chains: Map::empty(),
            registrations: Map::empty(),
            all_achievements: Map::empty(),
            total_chains: 0,
            total_achievements: 0,
        }
    }

    /// What the hub satisfies at all times: each submission stands under
    /// its own achievement id, once, and in the list of its player; each
    /// entry of a player's list stands, once, for a submission; no ledger
    /// is noted twice for one region; a ledger stands in the register with
    /// the region for which it registered last; and only ledgers of the
    /// register have registrations noted.
    pub open spec fn valid(self) -> bool {
        &&& forall|a: Seq<char>| #[trigger]
            self.all_achievements.contains_key(a) ==> records_fit(
                self.player_achievements,
                a,
                self.all_achievements[a],
            )
        &&& forall|p: Seq<char>| #[trigger]
            self.player_achievements.contains_key(p) ==> entries_fit(
                self.all_achievements,
                p,
                self.player_achievements[p],
            )
        &&& forall|c: Seq<char>| #[trigger]
            self.registrations.contains_key(c) ==> self.registrations[c].no_duplicates()
        &&& forall|c: Seq<char>| #[trigger]
            self.world_chains.contains_key(c) ==> self.registrations.contains_key(c)
                && self.registrations[c].len() > 0 && self.registrations[c].last()
                == self.world_chains[c].world_region
        &&& forall|c: Seq<char>| #[trigger]
            self.registrations.contains_key(c) ==> self.world_chains.contains_key(c)
    }

    /// The hub with both counters back at zero, and all else as it is.
    pub open spec fn with_counters_reset(self) -> HubModel {
        HubModel { total_chains: 0, total_achievements: 0, ..self }
    }

    /// The facts that are on the hub.
    pub open spec fn facts(self) -> Set<SubmissionModel> {
        Set::new(|fact: SubmissionModel| self.seen(fact))
    }

    /// The registrations that the hub has taken in, each a ledger and a
    /// region.
    pub open spec fn registered(self) -> Set<(Seq<char>, Seq<char>)> {
        Set::new(|pair: (Seq<char>, Seq<char>)| self.registered_for(pair.0, pair.1))
    }

    /// Whether both counters count what they are named for: the number of
    /// facts on the hub, and the number of registrations that it has taken
    /// in. They do on the empty hub, and every operation and message keeps
    /// it so; setting the counters back to zero on a hub that holds
    /// something does not.
    pub open spec fn counted(self) -> bool {
        &&& self.facts().finite()
        &&& self.total_achievements == self.facts().len()
        &&& self.registered().finite()
        &&& self.total_chains == self.registered().len()
    }

    /// Whether a ledger has registered for a region before.
    pub open spec fn registered_for(self, chain: Seq<char>, region: Seq<char>) -> bool {
        list_at(self.registrations, chain).contains(region)
    }

    /// Whether a fact is on the hub already.
    pub open spec fn seen(self, fact: SubmissionModel) -> bool {
        list_at(self.all_achievements, fact.achievement_id).contains(fact)
    }

    /// How the submission of a fact ends, given whether its metadata are
    /// JSON: refused as a duplicate where the fact is on the hub already,
    /// with a decode error where the metadata are no JSON, or where the
    /// counter is exhausted, in this order; taken in otherwise.
    pub open spec fn submit_result_given(self, fact: SubmissionModel, metadata_is_json: bool) -> Result<
        (),
        LedgerError,
    > {
        if self.seen(fact) {
            Err(LedgerError::Duplicate)
        } else if !metadata_is_json {
            Err(LedgerError::DecodeError { field: DecodeField::Metadata })
        } else if self.total_achievements == u64::MAX {
            Err(LedgerError::StoreError { cause: StoreCause::CounterExhausted })
        } else {
            Ok(())
        }
    }

    /// The hub after the submission of a fact, given whether its metadata
    /// are JSON. A fact that is taken in stands last in the list of its
    /// player and last among the submissions of its achievement, and is
    /// counted. A refused fact changes nothing.
    pub open spec fn submit_given(self, fact: SubmissionModel, metadata_is_json: bool) -> HubModel {
        if self.submit_result_given(fact, metadata_is_json) is Ok {
            HubModel {
                player_achievements: self.player_achievements.insert(
                    fact.player_id,
                    list_at(self.player_achievements, fact.player_id).push(fact.for_player()),
                ),
                all_achievements: self.all_achievements.insert(
                    fact.achievement_id,
                    list_at(self.all_achievements, fact.achievement_id).push(fact),
                ),
                total_achievements: (self.total_achievements + 1) as u64,
                ..self
            }
        } else {
            self
        }
    }

    /// How the submission of a fact ends: as `submit_result_given`, with
    /// the metadata read as JSON text.
    pub open spec fn submit_result(self, fact: SubmissionModel) -> Result<(), LedgerError> {
        self.submit_result_given(fact, json_parse(fact.metadata) is Some)
    }

    /// The hub after the submission of a fact: as `submit_given`, with the
    /// metadata read as JSON text.
    pub open spec fn submit(self, fact: SubmissionModel) -> HubModel {
        self.submit_given(fact, json_parse(fact.metadata) is Some)
    }

    /// How the registration of a ledger ends: refused as a duplicate where
    /// the ledger has registered for the region before, refused where the
    /// counter is exhausted, and taken in otherwise.
    pub open spec fn register_result(self, chain: Seq<char>, region: Seq<char>) -> Result<
        (),
        LedgerError,
    > {
        if self.registered_for(chain, region) {
            Err(LedgerError::Duplicate)
        } else if self.total_chains == u64::MAX {
            Err(LedgerError::StoreError { cause: StoreCause::CounterExhausted })
        } else {
            Ok(())
        }
    }

    /// The hub after the registration of a ledger at the time `now`. A
    /// registration that is taken in puts the ledger in the register as
    /// active, with its region and the time, in place of an earlier entry;
    /// it is noted among the ledger's registrations and counted. A refused
    /// registration changes nothing.
    pub open spec fn register(self, chain: Seq<char>, region: Seq<char>, now: u64) -> HubModel {
        if self.register_result(chain, region) is Ok {
            HubModel {
                world_chains: self.world_chains.insert(
                    chain,
                    WorldChainModel {
                        world_region: region,
                        registration_timestamp: now,
                        active: true,
                    },
                ),
                registrations: self.registrations.insert(
                    chain,
                    list_at(self.registrations, chain).push(region),
                ),
                total_chains: (self.total_chains + 1) as u64,
                ..self
            }
        } else {
            self
        }
    }
}

} // verus!
