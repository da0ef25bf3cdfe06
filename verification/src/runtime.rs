//! What the surrounding runtime gives a game ledger while it handles one
//! request: the ledger's own name, the time, its parameters, and the outbox
//! through which messages leave for other ledgers.

use vstd::prelude::*;
use crate::abi::{MessageModel, Parameters, RpgGameMessage};
use crate::chain::ChainId;

verus! {

/// A message on its way to another ledger.
#[derive(Debug, PartialEq, Eq)]
pub struct Envelope {
    pub destination: ChainId,
    pub message: RpgGameMessage,
}

/// The model of an [`Envelope`].
pub struct EnvelopeModel {
    pub destination: Seq<char>,
    pub message: MessageModel,
}

impl DeepView for Envelope {
    type V = EnvelopeModel;

    open spec fn deep_view(&self) -> EnvelopeModel {
        EnvelopeModel {
            destination: self.destination.deep_view(),
            message: self.message.deep_view(),
        }
    }
}

/// The messages that a ledger has handed to the channel, oldest first. The
/// channel accepts a message as long as fewer than `limit` are waiting.
pub struct Outbox {
    waiting: Vec<Envelope>,
    limit: usize,
}

impl Outbox {
    /// The waiting messages, oldest first.
    pub closed spec fn waiting(&self) -> Seq<EnvelopeModel> {
        self.waiting.deep_view()
    }

    /// The number of waiting messages from which on the channel refuses.
    pub closed spec fn limit(&self) -> nat {
        self.limit as nat
    }

    /// Whether the channel accepts one more message.
    pub open spec fn accepts(&self) -> bool {
        self.waiting().len() < self.limit()
    }

    /// An empty outbox that holds up to `limit` messages.
    pub fn new(limit: usize) -> (outbox: Self)
        ensures
            outbox.waiting() == Seq::<EnvelopeModel>::empty(),
            outbox.limit() == limit,
    {
        let outbox = Outbox { waiting: Vec::new(), limit };
        outbox
    }

    /// Whether the channel accepts one more message.
    pub fn is_open(&self) -> (open: bool)
        ensures
            open == self.accepts(),
    {
        self.waiting.len() < self.limit
    }

    /// The number of waiting messages.
    pub fn len(&self) -> (n: usize)
        ensures
            n == self.waiting().len(),
    {
        self.waiting.len()
    }

    /// Hands a message to the channel. Where the channel accepts it, it
    /// waits behind the others; where not, the envelope comes back and
    /// nothing changes.
    pub fn send(&mut self, envelope: Envelope) -> (refused: Option<Envelope>)
        ensures
            final(self).limit() == old(self).limit(),
            old(self).accepts() ==> refused is None && final(self).waiting() == old(
                self,
            ).waiting().push(envelope.deep_view()),
            !old(self).accepts() ==> refused == Some(envelope) && final(self).waiting() == old(
                self,
            ).waiting(),
    {
        if self.waiting.len() < self.limit {
            let ghost before = self.waiting.deep_view();
            self.waiting.push(envelope);
            assert(self.waiting.deep_view() =~= before.push(envelope.deep_view()));
            None
        } else {
            Some(envelope)
        }
    }

    /// Takes the waiting messages out, oldest first, for the channel to
    /// deliver.
    pub fn drain(&mut self) -> (sent: Vec<Envelope>)
        ensures
            sent.deep_view() == old(self).waiting(),
            final(self).waiting() == Seq::<EnvelopeModel>::empty(),
            final(self).limit() == old(self).limit(),
    {
        let mut sent: Vec<Envelope> = Vec::new();
        core::mem::swap(&mut self.waiting, &mut sent);
        sent
    }
}

/// What the runtime provides for one request.
pub struct Runtime {
    /// The name of the ledger that handles the request.
    pub chain_id: ChainId,
    /// The time of the request, in microseconds.
    pub system_time: u64,
    /// The parameters that the ledger was set up with.
    pub parameters: Parameters,
    /// The messages that leave the ledger.
    pub outbox: Outbox,
}

impl Runtime {
    /// A runtime with an empty outbox of the given limit.
    pub fn new(chain_id: ChainId, system_time: u64, parameters: Parameters, limit: usize) -> (runtime:
        Self)
        ensures
            runtime.chain_id == chain_id,
            runtime.system_time == system_time,
            runtime.parameters == parameters,
            runtime.outbox.waiting() == Seq::<EnvelopeModel>::empty(),
            runtime.outbox.limit() == limit,
    {
        Runtime { chain_id, system_time, parameters, outbox: Outbox::new(limit) }
    }
}

} // verus!
