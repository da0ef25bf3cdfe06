//! The hub's contract: how it answers each operation and each message.

use vstd::prelude::*;
use crate::error::LedgerError;
use crate::hub_abi::{HubMessage, HubOperation, HubParameters};
use crate::hub_ledger::HubState;
use crate::hub_state::{AchievementRecord, HubModel, SubmissionModel};

verus! {

/// What the runtime provides to the hub for one request.
#[derive(Debug, Clone, Copy, PartialEq, Eq, Structural)]
pub struct HubRuntime {
    /// The time of the request, in milliseconds.
    pub system_time: u64,
    /// The parameters that the hub was set up with.
    pub parameters: HubParameters,
}

/// How an operation ends on the hub.
pub open spec fn hub_operation_result(hub: HubModel, operation: HubOperation) -> Result<
    (),
    LedgerError,
> {
    match operation {
        HubOperation::SubmitAchievement {
            player_id,
            achievement_id,
            chain_id,
            timestamp,
            metadata,
        } => hub.submit_result(
            SubmissionModel {
                achievement_id: achievement_id@,
                player_id: player_id@,
                chain_id: chain_id.deep_view(),
                timestamp,
                metadata: metadata@,
            },
        ),
        HubOperation::RegisterWorldChain { chain_id, world_region } => hub.register_result(
            chain_id.deep_view(),
            world_region@,
        ),
    }
}

/// The hub after an operation at the time `now`.
pub open spec fn hub_operation_effect(hub: HubModel, now: u64, operation: HubOperation) -> HubModel {
    match operation {
        HubOperation::SubmitAchievement {
            player_id,
            achievement_id,
            chain_id,
            timestamp,
            metadata,
        } => hub.submit(
            SubmissionModel {
                achievement_id: achievement_id@,
                player_id: player_id@,
                chain_id: chain_id.deep_view(),
                timestamp,
                metadata: metadata@,
            },
        ),
        HubOperation::RegisterWorldChain { chain_id, world_region } => hub.register(
            chain_id.deep_view(),
            world_region@,
            now,
        ),
    }
}

/// The operation that says what a message says.
pub open spec fn as_operation(message: HubMessage) -> HubOperation {
    match message {
        HubMessage::AchievementSubmitted {
            player_id,
            achievement_id,
            chain_id,
            timestamp,
            metadata,
        } => HubOperation::SubmitAchievement {
            player_id,
            achievement_id,
            chain_id,
            timestamp,
            metadata,
        },
        HubMessage::WorldChainRegistered { chain_id, world_region } => HubOperation::RegisterWorldChain {
            chain_id,
            world_region,
        },
    }
}

/// The hub at work: its state, and what the runtime provides for the
/// request at hand.
pub struct RpgHubContract {
    pub state: HubState,
    pub runtime: HubRuntime,
}

impl RpgHubContract {
    /// Puts the hub's state to work under a runtime.
    pub fn load(state: HubState, runtime: HubRuntime) -> (contract: Self)
        ensures
            contract.state == state,
            contract.runtime == runtime,
    {
        RpgHubContract { state, runtime }
    }

    /// Sets the hub up: both counters are set to zero, and what the hub
    /// holds stays as it is. Tells whether `max_achievements` is what the
    /// hub's parameters name; the counters are set either way.
    pub fn instantiate(&mut self, max_achievements: u64) -> (matched: bool)
        ensures
            final(self).state@ == (HubModel {
                total_chains: 0,
                total_achievements: 0,
                ..old(self).state@
            }),
            final(self).state@.valid(),
            final(self).runtime == old(self).runtime,
            matched == (old(self).runtime.parameters.max_achievements == max_achievements),
    {
        self.state.reset_counters();
        self.runtime.parameters.max_achievements == max_achievements
    }

    /// Carries out an operation: the submission of an achievement, or the
    /// registration of a game ledger at the time of the request. What is
    /// refused changes nothing.
    pub fn execute_operation(&mut self, operation: HubOperation) -> (res: Result<(), LedgerError>)
        ensures
            final(self).state@.valid(),
            final(self).state@ == hub_operation_effect(
                old(self).state@,
                old(self).runtime.system_time,
                operation,
            ),
            res == hub_operation_result(old(self).state@, operation),
            final(self).runtime == old(self).runtime,
    {
        match operation {
            HubOperation::SubmitAchievement {
                player_id,
                achievement_id,
                chain_id,
                timestamp,
                metadata,
            } => {
                let record = AchievementRecord {
                    achievement_id,
                    player_id,
                    chain_id,
                    timestamp,
                    metadata,
                };
                self.state.submit_achievement(record)
            },
            HubOperation::RegisterWorldChain { chain_id, world_region } => {
                self.state.register_world_chain(&chain_id, world_region, self.runtime.system_time)
            },
        }
    }

    /// Takes in a message of a game ledger, which may arrive more than
    /// once: it is handled as the operation of the same content.
    pub fn execute_message(&mut self, message: HubMessage) -> (res: Result<(), LedgerError>)
        ensures
            final(self).state@.valid(),
            final(self).state@ == hub_operation_effect(
                old(self).state@,
                old(self).runtime.system_time,
                as_operation(message),
            ),
            res == hub_operation_result(old(self).state@, as_operation(message)),
            final(self).runtime == old(self).runtime,
    {
        match message {
            HubMessage::AchievementSubmitted {
                player_id,
                achievement_id,
                chain_id,
                timestamp,
                metadata,
            } => {
                let record = AchievementRecord {
                    achievement_id,
                    player_id,
                    chain_id,
                    timestamp,
                    metadata,
                };
                self.state.submit_achievement(record)
            },
            HubMessage::WorldChainRegistered { chain_id, world_region } => {
                self.state.register_world_chain(&chain_id, world_region, self.runtime.system_time)
            },
        }
    }

    /// Hands the state back, to be persisted.
    pub fn store(self) -> (state: HubState)
        ensures
            state == self.state,
    {
        self.state
    }
}

} // verus!
