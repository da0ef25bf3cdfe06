//! The game ledger's contract: how it answers each operation of its users
//! and each message of another ledger.

use vstd::prelude::*;
use crate::abi::{MessageModel, RpgGameMessage, RpgGameOperation};
use crate::error::{DecodeField, LedgerError};
use crate::ledger::RpgGameState;
use crate::model::GameModel;
use crate::payload::{decoded_inventory, decoded_quests};
use crate::runtime::{Envelope, EnvelopeModel, Runtime};
use crate::state::{BattleModel, BattleRecord, PlayerData, PlayerTransferRequest, TransferRequestModel};

verus! {

/// The message that an operation sends to another ledger, if it sends one.
pub open spec fn operation_sends(operation: RpgGameOperation) -> Option<EnvelopeModel> {
    match operation {
        RpgGameOperation::TransferPlayer {
            player_id,
            destination_chain,
            player_state,
            inventory,
            quests,
            auth_token,
        } => Some(
            EnvelopeModel {
                destination: destination_chain.deep_view(),
                message: MessageModel::PlayerTransfer {
                    player_id: player_id@,
                    player_state,
                    inventory: inventory@,
                    quests: quests@,
                    auth_token: auth_token@,
                },
            },
        ),
        RpgGameOperation::JoinGuild { player_id, guild_id, chain_id } => Some(
            EnvelopeModel {
                destination: chain_id.deep_view(),
                message: MessageModel::GuildJoinRequest {
                    player_id: player_id@,
                    guild_id: guild_id@,
                },
            },
        ),
        _ => None,
    }
}

/// How an operation ends on a ledger, given whether the channel accepts a
/// message.
pub open spec fn operation_result(
    ledger: GameModel,
    accepts: bool,
    operation: RpgGameOperation,
) -> Result<(), LedgerError> {
    match operation {
        RpgGameOperation::SavePlayerState { .. } => Ok(()),
        RpgGameOperation::SaveInventory { inventory, .. } => if decoded_inventory(inventory@) is Some {
            Ok(())
        } else {
            Err(LedgerError::DecodeError { field: DecodeField::Inventory })
        },
        RpgGameOperation::SaveQuests { quests, .. } => if decoded_quests(quests@) is Some {
            Ok(())
        } else {
            Err(LedgerError::DecodeError { field: DecodeField::Quests })
        },
        RpgGameOperation::TransferPlayer { .. } | RpgGameOperation::JoinGuild { .. } => if accepts {
            Ok(())
        } else {
            Err(LedgerError::ChannelUnavailable)
        },
        RpgGameOperation::RecordBattle {
            battle_id,
            player_id,
            opponent,
            player_result,
            damage_dealt,
            damage_taken,
            experience_gained,
        } => if ledger.battle_seen(
            BattleModel {
                battle_id: battle_id@,
                player_id: player_id@,
                opponent: opponent@,
                result: player_result,
                damage_dealt,
                damage_taken,
                experience_gained,
                timestamp: 0,
            },
        ) {
            Err(LedgerError::Duplicate)
        } else {
            Ok(())
        },
    }
}

/// The ledger after an operation, on the ledger called `chain` at the time
/// `now`, given whether the channel accepts a message.
pub open spec fn operation_effect(
    ledger: GameModel,
    chain: Seq<char>,
    now: u64,
    accepts: bool,
    operation: RpgGameOperation,
) -> GameModel {
    match operation {
        RpgGameOperation::SavePlayerState {
            player_id,
            health,
            max_health,
            strength,
            wisdomness,
            benchpress,
            curl,
            experience,
            level,
        } => ledger.save_player(
            player_id@,
            PlayerData {
                health,
                max_health,
                strength,
                wisdomness,
                benchpress,
                curl,
                experience,
                level,
            },
        ),
        RpgGameOperation::SaveInventory { player_id, inventory } => ledger.save_inventory(
            player_id@,
            inventory@,
        ),
        RpgGameOperation::SaveQuests { player_id, quests } => ledger.save_quests(
            player_id@,
            quests@,
        ),
        RpgGameOperation::TransferPlayer { player_id, destination_chain, auth_token, .. } => if accepts {
            ledger.initiate_transfer(
                TransferRequestModel {
                    source_chain: chain,
                    destination_chain: destination_chain.deep_view(),
                    player_id: player_id@,
                    auth_token: auth_token@,
                    timestamp: now,
                },
            )
        } else {
            ledger
        },
        RpgGameOperation::JoinGuild { player_id, guild_id, .. } => if accepts {
            ledger.request_join(player_id@, guild_id@)
        } else {
            ledger
        },
        RpgGameOperation::RecordBattle {
            battle_id,
            player_id,
            opponent,
            player_result,
            damage_dealt,
            damage_taken,
            experience_gained,
        } => ledger.record_battle(
            BattleModel {
                battle_id: battle_id@,
                player_id: player_id@,
                opponent: opponent@,
                result: player_result,
                damage_dealt,
                damage_taken,
                experience_gained,
                timestamp: now,
            },
        ),
    }
}

/// How a message ends on the ledger that receives it.
pub open spec fn message_result(ledger: GameModel, message: RpgGameMessage) -> Result<
    (),
    LedgerError,
> {
    ledger.delivery_result(message.deep_view())
}

/// The ledger after a message that it receives at the time `now`.
pub open spec fn message_effect(ledger: GameModel, now: u64, message: RpgGameMessage) -> GameModel {
    ledger.delivery(now, message.deep_view())
}

/// A game ledger at work: its state, and what the runtime provides for the
/// request at hand.
pub struct RpgGameContract {
    pub state: RpgGameState,
    pub runtime: Runtime,
}

impl RpgGameContract {
    /// Puts a ledger's state to work under a runtime.
    pub fn load(state: RpgGameState, runtime: Runtime) -> (contract: Self)
        ensures
            contract.state == state,
            contract.runtime == runtime,
    {
        RpgGameContract { state, runtime }
    }

    /// Sets the ledger up for a world region. Tells whether the region is
    /// the one that the ledger's parameters name; the region is set either
    /// way.
    pub fn instantiate(&mut self, world_region: String) -> (matched: bool)
        ensures
            final(self).state@ == old(self).state@.in_region(world_region@),
            final(self).runtime == old(self).runtime,
            matched == (old(self).runtime.parameters.world_region@ == world_region@),
    {
        let matched = self.runtime.parameters.world_region == world_region;
        self.state.set_world_region(world_region);
        matched
    }

    /// Carries out an operation of a user.
    ///
    /// Saving attributes always succeeds. Saving an inventory or a quest
    /// log fails with a decode error on a malformed payload, and then
    /// nothing changes. A transfer or a join request sends exactly one
    /// message and notes it on the ledger; where the channel does not
    /// accept the message, the operation fails, nothing is sent and nothing
    /// is noted. A battle that was recorded before is refused as a
    /// duplicate.
    pub fn execute_operation(&mut self, operation: RpgGameOperation) -> (res: Result<
        (),
        LedgerError,
    >)
        ensures
            final(self).state@.valid(),
            final(self).state@ == operation_effect(
                old(self).state@,
                old(self).runtime.chain_id.deep_view(),
                old(self).runtime.system_time,
                old(self).runtime.outbox.accepts(),
                operation,
            ),
            res == operation_result(
                old(self).state@,
                old(self).runtime.outbox.accepts(),
                operation,
            ),
            final(self).runtime.outbox.waiting() == (if operation_sends(operation) is Some && old(
                self,
            ).runtime.outbox.accepts() {
                old(self).runtime.outbox.waiting().push(operation_sends(operation)->0)
            } else {
                old(self).runtime.outbox.waiting()
            }),
            final(self).runtime.outbox.limit() == old(self).runtime.outbox.limit(),
            final(self).runtime.chain_id == old(self).runtime.chain_id,
            final(self).runtime.system_time == old(self).runtime.system_time,
            final(self).runtime.parameters == old(self).runtime.parameters,
    {
        self.state.witness_valid();
        match operation {
            RpgGameOperation::SavePlayerState {
                player_id,
                health,
                max_health,
                strength,
                wisdomness,
                benchpress,
                curl,
                experience,
                level,
            } => {
                let data = PlayerData {
                    health,
                    max_health,
                    strength,
                    wisdomness,
                    benchpress,
                    curl,
                    experience,
                    level,
                };
                self.state.save_player_state(player_id, data);
                Ok(())
            },
            RpgGameOperation::SaveInventory { player_id, inventory } => {
                self.state.save_inventory(player_id, inventory.as_str())
            },
            RpgGameOperation::SaveQuests { player_id, quests } => {
                self.state.save_quests(player_id, quests.as_str())
            },
            RpgGameOperation::TransferPlayer {
                player_id,
                destination_chain,
                player_state,
                inventory,
                quests,
                auth_token,
            } => {
                if !self.runtime.outbox.is_open() {
                    return Err(LedgerError::ChannelUnavailable);
                }
                let envelope = Envelope {
                    destination: destination_chain.duplicate(),
                    message: RpgGameMessage::PlayerTransfer {
                        player_id: player_id.clone(),
                        player_state,
                        inventory,
                        quests,
                        auth_token: auth_token.clone(),
                    },
                };
                let _ = self.runtime.outbox.send(envelope);
                let request = PlayerTransferRequest {
                    source_chain: self.runtime.chain_id.duplicate(),
                    destination_chain,
                    player_id,
                    auth_token,
                    timestamp: self.runtime.system_time,
                };
                self.state.initiate_transfer(request);
                Ok(())
            },
            RpgGameOperation::JoinGuild { player_id, guild_id, chain_id } => {
                if !self.runtime.outbox.is_open() {
                    return Err(LedgerError::ChannelUnavailable);
                }
                let envelope = Envelope {
                    destination: chain_id,
                    message: RpgGameMessage::GuildJoinRequest {
                        player_id: player_id.clone(),
                        guild_id: guild_id.clone(),
                    },
                };
                let _ = self.runtime.outbox.send(envelope);
                self.state.request_join(player_id, guild_id);
                Ok(())
            },
            RpgGameOperation::RecordBattle {
                battle_id,
                player_id,
                opponent,
                player_result,
                damage_dealt,
                damage_taken,
                experience_gained,
            } => {
                let record = BattleRecord {
                    battle_id,
                    player_id,
                    opponent,
                    result: player_result,
                    damage_dealt,
                    damage_taken,
                    experience_gained,
                    timestamp: self.runtime.system_time,
                };
                self.state.record_battle(record)
            },
        }
    }

    /// Takes in a message of another ledger. Every message may arrive more
    /// than once.
    ///
    /// A migrating player is installed step by step, and the first payload
    /// that cannot be decoded ends the installation with its error. A join
    /// always succeeds. A battle that was recorded before is refused
    /// as a duplicate and changes nothing.
    pub fn execute_message(&mut self, message: RpgGameMessage) -> (res: Result<(), LedgerError>)
        ensures
            final(self).state@.valid(),
            final(self).state@ == message_effect(
                old(self).state@,
                old(self).runtime.system_time,
                message,
            ),
            res == message_result(old(self).state@, message),
            final(self).runtime == old(self).runtime,
    {
        match message {
            RpgGameMessage::PlayerTransfer {
                player_id,
                player_state,
                inventory,
                quests,
                auth_token,
            } => self.state.accept_transfer(
                player_id,
                player_state,
                inventory.as_str(),
                quests.as_str(),
            ),
            RpgGameMessage::GuildJoinRequest { player_id, guild_id } => {
                self.state.accept_join(player_id, guild_id);
                Ok(())
            },
            RpgGameMessage::BattleResult {
                battle_id,
                player_id,
                opponent,
                result,
                damage_dealt,
                damage_taken,
                experience_gained,
            } => {
                let record = BattleRecord {
                    battle_id,
                    player_id,
                    opponent,
                    result,
                    damage_dealt,
                    damage_taken,
                    experience_gained,
                    timestamp: self.runtime.system_time,
                };
                self.state.record_battle(record)
            },
        }
    }

    /// Hands the state back, to be persisted.
    pub fn store(self) -> (state: RpgGameState)
        ensures
            state == self.state,
    {
        self.state
    }
}

} // verus!
