//! Ledger logic of a multi-chain role-playing game: player migration between
//! ledgers, guild membership, and the aggregation of battles and achievements
//! under at-least-once message delivery.
//!
//! Two kinds of ledger are modelled. A game ledger ([`RpgGameContract`])
//! holds players, inventories, quest logs, battles and guilds, and exchanges
//! players and facts with other game ledgers by one-way messages. The hub
//! ([`RpgHubContract`]) gathers achievements and keeps a register of game
//! ledgers. Every message may arrive more than once, so every handler is an
//! idempotent merge: a snapshot overwrites, a guild member is added at most
//! once, and a fact that was recorded before is refused as a duplicate.
//!
//! Each ledger has a mathematical model ([`model::GameModel`],
//! [`hub_state::HubModel`]) against which its executable state is
//! specified, and of which the laws of the protocol are proved ([`laws`],
//! [`hub_laws`]). JSON payloads are read by `serde_json` behind the
//! contracts of [`json`]; nothing else is assumed.

pub mod abi;
pub mod chain;
pub mod contract;
pub mod error;
pub mod hub_abi;
pub mod hub_contract;
pub mod hub_laws;
pub mod hub_ledger;
pub mod hub_service;
pub mod hub_snapshot;
pub mod hub_state;
pub mod json;
pub mod laws;
pub mod ledger;
pub mod lists;
pub mod model;
pub mod payload;
pub mod runtime;
pub mod service;
pub mod snapshot;
pub mod state;
pub mod table;

pub use abi::{Parameters, PlayerState, RpgGameAbi, RpgGameMessage, RpgGameOperation};
pub use chain::ChainId;
pub use contract::RpgGameContract;
pub use error::{DecodeField, LedgerError, StoreCause};
pub use hub_abi::{HubMessage, HubOperation, HubParameters, RpgHubAbi};
pub use hub_contract::{HubRuntime, RpgHubContract};
pub use hub_ledger::HubState;
pub use hub_service::RpgHubService;
pub use hub_snapshot::HubSnapshot;
pub use hub_state::{AchievementRecord, PlayerAchievement, WorldChainInfo};
pub use ledger::RpgGameState;
pub use runtime::{Envelope, Outbox, Runtime};
pub use service::RpgGameService;
pub use snapshot::GameSnapshot;
pub use state::{
    BattleRecord, GuildData, InventoryData, InventoryItem, PlayerData, PlayerTransferRequest,
    QuestData,
};
