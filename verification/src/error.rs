//! The ways in which a ledger refuses an operation or a message.

use vstd::prelude::*;

verus! {

/// The payload that could not be decoded.
#[derive(Debug, Clone, Copy, PartialEq, Eq, Structural)]
pub enum DecodeField {
    /// The JSON text of an inventory.
    Inventory,
    /// The JSON text of a quest log.
    Quests,
    /// The JSON text that describes an achievement.
    Metadata,
}

/// Why a write to the ledger's store did not happen.
#[derive(Debug, Clone, Copy, PartialEq, Eq, Structural)]
pub enum StoreCause {
    /// A counter stands at its largest value and cannot be incremented.
    CounterExhausted,
    /// The layer that persists the ledger failed. No function of this
    /// library returns it: it is for that layer to report.
    Persistence,
}

/// The refusal of an operation or a message. None is fatal to the ledger:
/// a refused request is skipped and the ledger serves the next.
#[derive(Debug, Clone, Copy, PartialEq, Eq, Structural)]
pub enum LedgerError {
    /// A payload is malformed.
    DecodeError { field: DecodeField },
    /// A write to the store did not happen.
    StoreError { cause: StoreCause },
    /// The fact was recorded before: this is a redelivery, and nothing was
    /// recorded a second time.
    Duplicate,
    /// The message channel cannot accept another message.
    ChannelUnavailable,
}

impl LedgerError {
    /// The sentence that describes the refusal.
    pub open spec fn description(self) -> Seq<char> {
        match self {
            LedgerError::DecodeError { field: DecodeField::Inventory } => "malformed inventory payload"@,
            LedgerError::DecodeError { field: DecodeField::Quests } => "malformed quest payload"@,
            LedgerError::DecodeError { field: DecodeField::Metadata } => "malformed achievement metadata"@,
            LedgerError::StoreError { cause: StoreCause::CounterExhausted } => "counter exhausted"@,
            LedgerError::StoreError { cause: StoreCause::Persistence } => "persistence failure"@,
            LedgerError::Duplicate => "fact already recorded"@,
            LedgerError::ChannelUnavailable => "message channel unavailable"@,
        }
    }

    /// A sentence that describes the refusal.
    pub fn describe(&self) -> (text: String)
        ensures
            text@ == self.description(),
    {
        match self {
            LedgerError::DecodeError { field: DecodeField::Inventory } => "malformed inventory payload".to_owned(),
            LedgerError::DecodeError { field: DecodeField::Quests } => "malformed quest payload".to_owned(),
            LedgerError::DecodeError { field: DecodeField::Metadata } => "malformed achievement metadata".to_owned(),
            LedgerError::StoreError { cause: StoreCause::CounterExhausted } => "counter exhausted".to_owned(),
            LedgerError::StoreError { cause: StoreCause::Persistence } => "persistence failure".to_owned(),
            LedgerError::Duplicate => "fact already recorded".to_owned(),
            LedgerError::ChannelUnavailable => "message channel unavailable".to_owned(),
        }
    }
}

} // verus!
