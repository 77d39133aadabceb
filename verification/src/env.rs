//! The environment one invocation runs in: the durable store, the ledger's
//! clock, the bridge's own address, and the journal of what the invocation
//! asks of the token module and of the event stream.

use crate::storage::{Storage, StorageView};
use crate::types::{Event, TokenCall};
use vstd::prelude::*;

verus! {

/// An environment as mathematics.
pub struct EnvView {
    pub storage: StorageView,
    pub contract: [u8; 32],
    pub sequence: u32,
    pub timestamp: u64,
    pub token_calls: Seq<TokenCall>,
    pub events: Seq<Event>,
}

/// What the bridge sees of its host, and what it asks of it.
///
/// The host commits an invocation as a whole: the writes to `storage`, the
/// requests in `token_calls` and the records in `events` take effect
/// together, or, when any token request fails, not at all.
pub struct Env {
    /// The durable store.
    pub storage: Storage,
    /// The address of the bridge itself, under which it holds tokens.
    pub contract: [u8; 32],
    /// The ledger's sequence number.
    pub sequence: u32,
    /// The ledger's close time.
    pub timestamp: u64,
    /// The requests to the token module, oldest first.
    pub token_calls: Vec<TokenCall>,
    /// The events published, oldest first.
    pub events: Vec<Event>,
}

impl View for Env {
    type V = EnvView;

    open spec fn view(&self) -> EnvView {
        EnvView {
            storage: self.storage@,
            contract: self.contract,
            sequence: self.sequence,
            timestamp: self.timestamp,
            token_calls: self.token_calls@,
            events: self.events@,
        }
    }
}

impl Env {
    /// An environment over `storage` in which nothing has been requested yet.
    pub fn new(storage: Storage, contract: [u8; 32], sequence: u32, timestamp: u64) -> (env: Env)
        ensures
            env@ == (EnvView {
                storage: storage@,
                contract,
                sequence,
                timestamp,
                token_calls: Seq::empty(),
                events: Seq::empty(),
            }),
    {
        Env { storage, contract, sequence, timestamp, token_calls: Vec::new(), events: Vec::new() }
    }
}

} // verus!
