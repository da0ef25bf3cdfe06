//! The hub's service: read-only lookups, and the operations that its
//! mutations schedule.

use vstd::prelude::*;
use crate::chain::ChainId;
use crate::hub_abi::HubOperation;
use crate::hub_ledger::HubState;
use crate::hub_state::{AchievementRecord, PlayerAchievement, WorldChainInfo};

verus! {

/// Answers queries from the state of the hub. It never changes the state:
/// a mutation yields the operation that is to be scheduled.
pub struct RpgHubService {
    pub state: HubState,
}

impl RpgHubService {
    /// A service over the hub's state.
    pub fn new(state: HubState) -> (service: Self)
        ensures
            service.state == state,
    {
        RpgHubService { state }
    }

    /// The achievements of a player, in the order submitted.
    pub fn player_achievements(&self, player_id: &String) -> (res: Option<&Vec<PlayerAchievement>>)
        ensures
            match res {
                Some(entries) => self.state@.player_achievements.contains_key(player_id@)
                    && entries.deep_view() == self.state@.player_achievements[player_id@],
                None => !self.state@.player_achievements.contains_key(player_id@),
            },
    {
        self.state.player_achievements(player_id)
    }

    /// The number of registrations that were taken in.
    pub fn world_chains_count(&self) -> (n: u64)
        ensures
            n == self.state@.total_chains,
    {
        self.state.world_chains_count()
    }

    /// The number of submissions that were taken in.
    pub fn total_achievements_count(&self) -> (n: u64)
        ensures
            n == self.state@.total_achievements,
    {
        self.state.total_achievements_count()
    }

    /// The entry of a ledger in the register.
    pub fn world_chain_info(&self, chain_id: &ChainId) -> (res: Option<&WorldChainInfo>)
        ensures
            match res {
                Some(info) => self.state@.world_chains.contains_key(chain_id.deep_view())
                    && info.deep_view() == self.state@.world_chains[chain_id.deep_view()],
                None => !self.state@.world_chains.contains_key(chain_id.deep_view()),
            },
    {
        self.state.world_chain_info(chain_id)
    }

    /// All submissions of an achievement, in the order submitted.
    pub fn achievement_records(&self, achievement_id: &String) -> (res: Option<
        &Vec<AchievementRecord>,
    >)
        ensures
            match res {
                Some(records) => self.state@.all_achievements.contains_key(achievement_id@)
                    && records.deep_view() == self.state@.all_achievements[achievement_id@],
                None => !self.state@.all_achievements.contains_key(achievement_id@),
            },
    {
        self.state.achievement_records(achievement_id)
    }

    /// The operation that submits an achievement.
    pub fn submit_achievement(
        player_id: String,
        achievement_id: String,
        chain_id: ChainId,
        timestamp: u64,
        metadata: String,
    ) -> (operation: HubOperation)
        ensures
            operation == (HubOperation::SubmitAchievement {
                player_id,
                achievement_id,
                chain_id,
                timestamp,
                metadata,
            }),
    {
        HubOperation::SubmitAchievement { player_id, achievement_id, chain_id, timestamp, metadata }
    }

    /// The operation that registers a game ledger.
    pub fn register_world_chain(chain_id: ChainId, world_region: String) -> (operation: HubOperation)
        ensures
            operation == (HubOperation::RegisterWorldChain { chain_id, world_region }),
    {
        HubOperation::RegisterWorldChain { chain_id, world_region }
    }
}

} // verus!
