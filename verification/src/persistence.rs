//! What the engine persists, the interface of a store for it, and a store
//! kept in memory.

use vstd::prelude::*;
use crate::types::{PhaseId, copy_bytes};
use crate::state_machine::Snapshot;
use crate::error::RabiaError;

verus! {

/// The state the engine persists: its phases and, possibly, a snapshot.
#[derive(Debug, Clone)]
pub struct EngineState {
    pub current_phase: PhaseId,
    pub last_committed_phase: PhaseId,
    pub snapshot: Option<Snapshot>,
}

impl EngineState {
    /// The state with the given phases and snapshot.
    pub fn new(current_phase: PhaseId, last_committed_phase: PhaseId, snapshot: Option<Snapshot>) -> (r: EngineState)
        ensures
            r.current_phase == current_phase,
            r.last_committed_phase == last_committed_phase,
            r.snapshot == snapshot,
    {
        EngineState { current_phase, last_committed_phase, snapshot }
    }

    /// The error for a failure to encode the state, with the encoder's own
    /// description `detail`.
    pub fn encode_failure(detail: &str) -> (r: RabiaError)
        ensures
            r matches RabiaError::Internal { message: m }
                && m@ == "Serialization error: "@ + "Failed to serialize engine state: "@ + detail@,
    {
        let text = crate::text::concat("Failed to serialize engine state: ", detail);
        RabiaError::serialization(text.as_str())
    }

    /// The error for a failure to decode a state, with the decoder's own
    /// description `detail`.
    pub fn decode_failure(detail: &str) -> (r: RabiaError)
        ensures
            r matches RabiaError::Internal { message: m }
                && m@ == "Serialization error: "@ + "Failed to deserialize engine state: "@ + detail@,
    {
        let text = crate::text::concat("Failed to deserialize engine state: ", detail);
        RabiaError::serialization(text.as_str())
    }
}

/// A store of one state value: the latest bytes saved.
pub trait PersistenceLayer {
    /// Saves `state`, replacing what was saved before.
    fn save_state(&mut self, state: &[u8]) -> Result<(), RabiaError>;

    /// The bytes saved last, or `None` when nothing was saved.
    fn load_state(&self) -> Result<Option<Vec<u8>>, RabiaError>;
}

/// A store of one state value kept in memory.
#[derive(Debug, Clone)]
pub struct InMemoryPersistence {
    state: Option<Vec<u8>>,
}

impl InMemoryPersistence {
    /// What is saved, if anything.
    pub closed spec fn saved(&self) -> Option<Seq<u8>> {
        match self.state {
            Some(v) => Some(v@),
            None => None,
        }
    }

    /// An empty store.
    pub fn new() -> (r: InMemoryPersistence)
        ensures
            r.saved() is None,
    {
        InMemoryPersistence { state: None }
    }
}

impl Default for InMemoryPersistence {
    fn default() -> (r: InMemoryPersistence)
        ensures
            r.saved() is None,
    {
        InMemoryPersistence::new()
    }
}

impl PersistenceLayer for InMemoryPersistence {
    fn save_state(&mut self, state: &[u8]) -> (r: Result<(), RabiaError>)
        ensures
            r is Ok,
            final(self).saved() == Some(state@),
    {
        self.state = Some(copy_bytes(state));
        Ok(())
    }

    fn load_state(&self) -> (r: Result<Option<Vec<u8>>, RabiaError>)
        ensures
            r matches Ok(o) && match (o, self.saved()) {
                (Some(v), Some(s)) => v@ == s,
                (None, None) => true,
                _ => false,
            },
    {
        match &self.state {
            Some(v) => Ok(Some(copy_bytes(v.as_slice()))),
            None => Ok(None),
        }
    }
}

} // verus!
