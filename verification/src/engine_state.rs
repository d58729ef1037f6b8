//! The consensus engine's state: phase counters, pending batches, phase
//! records, synchronization responses, active nodes and a version counter.

use vstd::prelude::*;
use crate::types::{BatchId, CommandBatch, NodeId, PhaseId};
use crate::messages::{PendingBatch, PhaseData, SyncResponseMessage};
use crate::node_set::NodeSet;
use crate::table::Table;
use crate::error::RabiaError;
use crate::text::{concat, decimal, decimal_text};
use crate::clock::{unix_time_millis, unix_time_secs};

verus! {

/// The version after one more change: one more, wrapping at `u64::MAX`.
pub open spec fn bumped(v: u64) -> u64 {
    if v == u64::MAX { 0 } else { (v + 1) as u64 }
}

/// Counters of the engine state at one moment.
#[derive(Debug, Clone, Copy)]
pub struct EngineStatistics {
    pub current_phase: PhaseId,
    pub last_committed_phase: PhaseId,
    pub pending_batches_count: usize,
    pub phases_count: usize,
    pub active_nodes_count: usize,
    pub has_quorum: bool,
    pub is_active: bool,
    pub state_version: u64,
}

/// The engine's state. Every change bumps the version.
#[derive(Debug)]
pub struct EngineState {
    current_phase: u64,
    last_committed_phase: u64,
    is_active: bool,
    has_quorum: bool,
    pending_batches: Table<PendingBatch>,
    phases: Table<PhaseData>,
    sync_responses: Table<SyncResponseMessage>,
    active_nodes: NodeSet,
    quorum_size: usize,
    state_version: u64,
    last_cleanup: u64,
}

impl EngineState {
    /// The current phase number.
    pub closed spec fn phase(&self) -> u64 { self.current_phase }

    /// The last committed phase number.
    pub closed spec fn committed(&self) -> u64 { self.last_committed_phase }

    /// Whether the node takes part in consensus.
    pub closed spec fn active(&self) -> bool { self.is_active }

    /// Whether the active nodes form a quorum.
    pub closed spec fn quorum(&self) -> bool { self.has_quorum }

    /// The version counter.
    pub closed spec fn version(&self) -> u64 { self.state_version }

    /// Pending batches by batch identifier.
    pub closed spec fn pending(&self) -> Map<u128, PendingBatch> { self.pending_batches.map() }

    /// Phase records by phase number.
    pub closed spec fn phase_records(&self) -> Map<u128, PhaseData> { self.phases.map() }

    /// Synchronization responses by responding node.
    pub closed spec fn responses(&self) -> Map<u128, SyncResponseMessage> { self.sync_responses.map() }

    /// The active nodes.
    pub closed spec fn active_set(&self) -> Set<NodeId> { self.active_nodes.set() }

    /// The number of active nodes that makes a quorum.
    pub closed spec fn required_quorum(&self) -> usize { self.quorum_size }

    /// The number of active nodes that makes a quorum.
    pub fn quorum_size(&self) -> (r: usize)
        ensures
            r == self.required_quorum(),
    {
        self.quorum_size
    }

    /// The whole state but the version is unchanged from `other`.
    pub open spec fn same_but_version(&self, other: &EngineState) -> bool {
        &&& self.phase() == other.phase()
        &&& self.committed() == other.committed()
        &&& self.active() == other.active()
        &&& self.quorum() == other.quorum()
        &&& self.pending() == other.pending()
        &&& self.phase_records() == other.phase_records()
        &&& self.responses() == other.responses()
        &&& self.active_set() == other.active_set()
        &&& self.required_quorum() == other.required_quorum()
    }

    /// A fresh state: phase 0, nothing committed, active with a quorum, no
    /// batches, phases, responses or active nodes, version 1.
    pub fn new(quorum_size: usize) -> (r: EngineState)
        ensures
            r.phase() == 0,
            r.committed() == 0,
            r.active(),
            r.quorum(),
            r.pending() == Map::<u128, PendingBatch>::empty(),
            r.phase_records() == Map::<u128, PhaseData>::empty(),
            r.responses() == Map::<u128, SyncResponseMessage>::empty(),
            r.active_set() == Set::<NodeId>::empty(),
            r.required_quorum() == quorum_size,
            r.version() == 1,
    {
        EngineState {
            current_phase: 0,
            last_committed_phase: 0,
            is_active: true,
            has_quorum: true,
            pending_batches: Table::new(),
            phases: Table::new(),
            sync_responses: Table::new(),
            active_nodes: NodeSet::new(),
            quorum_size,
            state_version: 1,
            last_cleanup: 0,
        }
    }

    fn increment_version(&mut self)
        ensures
            final(self).version() == bumped(old(self).version()),
            final(self).same_but_version(old(self)),
    {
        self.state_version = self.state_version.wrapping_add(1);
    }

    /// The current phase.
    pub fn current_phase(&self) -> (r: PhaseId)
        ensures
            r.0 == self.phase(),
    {
        PhaseId::new(self.current_phase)
    }

    /// The last committed phase.
    pub fn last_committed_phase(&self) -> (r: PhaseId)
        ensures
            r.0 == self.committed(),
    {
        PhaseId::new(self.last_committed_phase)
    }

    /// Sets the current phase and the last committed phase, as a restart
    /// from persisted state or a synchronization does.
    pub fn restore_phases(&mut self, current: PhaseId, committed: PhaseId)
        ensures
            final(self).phase() == current.0,
            final(self).committed() == committed.0,
            final(self).active() == old(self).active(),
            final(self).quorum() == old(self).quorum(),
            final(self).pending() == old(self).pending(),
            final(self).phase_records() == old(self).phase_records(),
            final(self).responses() == old(self).responses(),
            final(self).active_set() == old(self).active_set(),
            final(self).version() == old(self).version(),
            final(self).required_quorum() == old(self).required_quorum(),
    {
        self.current_phase = current.0;
        self.last_committed_phase = committed.0;
    }

    /// Sets the current phase, as a synchronization to a peer ahead does.
    pub fn set_current_phase(&mut self, phase: PhaseId)
        ensures
            final(self).phase() == phase.0,
            final(self).committed() == old(self).committed(),
            final(self).active() == old(self).active(),
            final(self).quorum() == old(self).quorum(),
            final(self).pending() == old(self).pending(),
            final(self).phase_records() == old(self).phase_records(),
            final(self).responses() == old(self).responses(),
            final(self).active_set() == old(self).active_set(),
            final(self).version() == old(self).version(),
            final(self).required_quorum() == old(self).required_quorum(),
    {
        self.current_phase = phase.0;
    }

    /// Moves to the next phase and returns it.
    pub fn advance_phase(&mut self) -> (r: PhaseId)
        requires
            old(self).phase() < u64::MAX,
        ensures
            r.0 == old(self).phase() + 1,
            final(self).phase() == old(self).phase() + 1,
            final(self).committed() == old(self).committed(),
            final(self).version() == bumped(old(self).version()),
            final(self).active() == old(self).active(),
            final(self).quorum() == old(self).quorum(),
            final(self).pending() == old(self).pending(),
            final(self).phase_records() == old(self).phase_records(),
            final(self).responses() == old(self).responses(),
            final(self).active_set() == old(self).active_set(),
            final(self).required_quorum() == old(self).required_quorum(),
    {
        self.current_phase = self.current_phase + 1;
        self.increment_version();
        PhaseId::new(self.current_phase)
    }

    /// Commits `phase_id`. A phase later than the current one is refused;
    /// the committed phase only moves forward: it becomes `phase_id` (and
    /// `true` is returned) exactly when `phase_id` is later than it.
    pub fn commit_phase(&mut self, phase_id: PhaseId) -> (r: Result<bool, RabiaError>)
        ensures
            phase_id.0 > old(self).phase() ==> {
                &&& r matches Err(RabiaError::InvalidStateTransition { from: f, to: t })
                &&& f@ == "current_phase="@ + decimal_text(old(self).phase() as nat)
                &&& t@ == "commit_phase="@ + decimal_text(phase_id.0 as nat)
                &&& *final(self) == *old(self)
            },
            phase_id.0 <= old(self).phase() ==> {
                &&& r == Ok::<bool, RabiaError>(phase_id.0 > old(self).committed())
                &&& final(self).committed() == if phase_id.0 > old(self).committed() { phase_id.0 } else { old(self).committed() }
                &&& final(self).version() == if phase_id.0 > old(self).committed() { bumped(old(self).version()) } else { old(self).version() }
                &&& final(self).phase() == old(self).phase()
                &&& final(self).active() == old(self).active()
                &&& final(self).quorum() == old(self).quorum()
                &&& final(self).pending() == old(self).pending()
                &&& final(self).phase_records() == old(self).phase_records()
                &&& final(self).responses() == old(self).responses()
                &&& final(self).active_set() == old(self).active_set()
                &&& final(self).required_quorum() == old(self).required_quorum()
            },
            final(self).committed() >= old(self).committed(),
            old(self).committed() <= old(self).phase() ==> final(self).committed() <= final(self).phase(),
    {
        let phase_value = phase_id.value();
        if phase_value > self.current_phase {
            return Err(RabiaError::InvalidStateTransition {
                from: concat("current_phase=", decimal(self.current_phase).as_str()),
                to: concat("commit_phase=", decimal(phase_value).as_str()),
            });
        }
        if self.last_committed_phase < phase_value {
            self.last_committed_phase = phase_value;
            self.increment_version();
            return Ok(true);
        }
        Ok(false)
    }

    /// Whether the node takes part in consensus.
    pub fn is_active(&self) -> (r: bool)
        ensures
            r == self.active(),
    {
        self.is_active
    }

    /// Sets whether the node takes part; a change bumps the version.
    pub fn set_active(&mut self, active: bool)
        ensures
            final(self).active() == active,
            final(self).version() == if active != old(self).active() { bumped(old(self).version()) } else { old(self).version() },
            final(self).phase() == old(self).phase(),
            final(self).committed() == old(self).committed(),
            final(self).quorum() == old(self).quorum(),
            final(self).pending() == old(self).pending(),
            final(self).phase_records() == old(self).phase_records(),
            final(self).responses() == old(self).responses(),
            final(self).active_set() == old(self).active_set(),
            final(self).required_quorum() == old(self).required_quorum(),
    {
        if self.is_active != active {
            self.is_active = active;
            self.increment_version();
        }
    }

    /// Whether the active nodes form a quorum.
    pub fn has_quorum(&self) -> (r: bool)
        ensures
            r == self.quorum(),
    {
        self.has_quorum
    }

    /// Sets the quorum flag; a change bumps the version.
    pub fn set_quorum(&mut self, has_quorum: bool)
        ensures
            final(self).quorum() == has_quorum,
            final(self).version() == if has_quorum != old(self).quorum() { bumped(old(self).version()) } else { old(self).version() },
            final(self).phase() == old(self).phase(),
            final(self).committed() == old(self).committed(),
            final(self).active() == old(self).active(),
            final(self).pending() == old(self).pending(),
            final(self).phase_records() == old(self).phase_records(),
            final(self).responses() == old(self).responses(),
            final(self).active_set() == old(self).active_set(),
            final(self).required_quorum() == old(self).required_quorum(),
    {
        if self.has_quorum != has_quorum {
            self.has_quorum = has_quorum;
            self.increment_version();
        }
    }

    /// A copy of the active nodes.
    pub fn get_active_nodes(&self) -> (r: NodeSet)
        ensures
            r.set() == self.active_set(),
    {
        self.active_nodes.clone()
    }

    /// Replaces the active nodes; the quorum flag and the active flag both
    /// become whether they are at least the quorum size.
    pub fn update_active_nodes(&mut self, nodes: NodeSet)
        ensures
            final(self).active_set() == nodes.set(),
            final(self).quorum() == (nodes.set().len() >= old(self).required_quorum()),
            final(self).active() == (nodes.set().len() >= old(self).required_quorum()),
            final(self).phase() == old(self).phase(),
            final(self).committed() == old(self).committed(),
            final(self).pending() == old(self).pending(),
            final(self).phase_records() == old(self).phase_records(),
            final(self).responses() == old(self).responses(),
            final(self).required_quorum() == old(self).required_quorum(),
    {
        let has_quorum = nodes.len() >= self.quorum_size;
        if !self.active_nodes.same_nodes(&nodes) {
            self.active_nodes = nodes;
            self.increment_version();
        }
        self.set_quorum(has_quorum);
        self.set_active(has_quorum);
    }

    /// Records `batch` from `originator` as pending (replacing a pending
    /// batch of the same identifier) and returns its identifier.
    pub fn add_pending_batch(&mut self, batch: CommandBatch, originator: NodeId) -> (r: BatchId)
        ensures
            r == batch.id,
            final(self).pending().contains_key(r.0),
            final(self).pending()[r.0].batch == batch,
            final(self).pending()[r.0].originator == originator,
            final(self).pending()[r.0].retry_count == 0,
            final(self).pending().remove(r.0) == old(self).pending().remove(r.0),
            final(self).version() == bumped(old(self).version()),
            final(self).phase() == old(self).phase(),
            final(self).committed() == old(self).committed(),
            final(self).active() == old(self).active(),
            final(self).quorum() == old(self).quorum(),
            final(self).phase_records() == old(self).phase_records(),
            final(self).responses() == old(self).responses(),
            final(self).active_set() == old(self).active_set(),
            final(self).required_quorum() == old(self).required_quorum(),
    {
        let pending = PendingBatch::new(batch, originator);
        let batch_id = pending.batch.id;
        self.pending_batches.insert(batch_id.0, pending);
        proof {
            assert(self.pending_batches.map().remove(batch_id.0) =~= old(self).pending_batches.map().remove(batch_id.0));
        }
        self.increment_version();
        batch_id
    }

    /// Removes the pending batch `batch_id` and returns it; the version is
    /// bumped when one was removed.
    pub fn remove_pending_batch(&mut self, batch_id: &BatchId) -> (r: Option<PendingBatch>)
        ensures
            final(self).pending() == old(self).pending().remove(batch_id.0),
            r matches Some(p) ==> old(self).pending().contains_key(batch_id.0) && p == old(self).pending()[batch_id.0],
            r is None ==> !old(self).pending().contains_key(batch_id.0),
            final(self).version() == if r is Some { bumped(old(self).version()) } else { old(self).version() },
            final(self).phase() == old(self).phase(),
            final(self).committed() == old(self).committed(),
            final(self).active() == old(self).active(),
            final(self).quorum() == old(self).quorum(),
            final(self).phase_records() == old(self).phase_records(),
            final(self).responses() == old(self).responses(),
            final(self).active_set() == old(self).active_set(),
            final(self).required_quorum() == old(self).required_quorum(),
    {
        let result = self.pending_batches.remove(batch_id.0);
        if result.is_some() {
            self.increment_version();
        }
        result
    }

    /// A copy of the pending batch `batch_id`, if any.
    pub fn get_pending_batch(&self, batch_id: &BatchId) -> (r: Option<PendingBatch>)
        ensures
            r matches Some(p) ==> self.pending().contains_key(batch_id.0) && p@ == self.pending()[batch_id.0]@,
            r is None ==> !self.pending().contains_key(batch_id.0),
    {
        match self.pending_batches.get(batch_id.0) {
            Some(p) => Some(p.clone()),
            None => None,
        }
    }

    /// The record of `phase_id`, created empty (bumping the version) when
    /// absent; returns a copy of it.
    pub fn get_or_create_phase(&mut self, phase_id: PhaseId) -> (r: PhaseData)
        ensures
            final(self).phase_records().contains_key(phase_id.0 as u128),
            r@ == final(self).phase_records()[phase_id.0 as u128]@,
            old(self).phase_records().contains_key(phase_id.0 as u128) ==> {
                &&& final(self).phase_records() == old(self).phase_records()
                &&& final(self).version() == old(self).version()
            },
            !old(self).phase_records().contains_key(phase_id.0 as u128) ==> {
                &&& final(self).phase_records().remove(phase_id.0 as u128) == old(self).phase_records()
                &&& r.phase_id == phase_id
                &&& r.round1_votes@.len() == 0
                &&& r.round2_votes@.len() == 0
                &&& r.decision is None
                &&& r.batch is None
                &&& final(self).version() == bumped(old(self).version())
            },
            final(self).phase() == old(self).phase(),
            final(self).committed() == old(self).committed(),
            final(self).active() == old(self).active(),
            final(self).quorum() == old(self).quorum(),
            final(self).pending() == old(self).pending(),
            final(self).responses() == old(self).responses(),
            final(self).active_set() == old(self).active_set(),
            final(self).required_quorum() == old(self).required_quorum(),
    {
        let key = phase_id.0 as u128;
        if !self.phases.contains_key(key) {
            let fresh = PhaseData::new(phase_id);
            self.phases.insert(key, fresh);
            proof {
                assert(self.phases.map().remove(key) =~= old(self).phases.map());
            }
            self.increment_version();
        }
        match self.phases.get(key) {
            Some(p) => p.clone(),
            None => {
                assert(false);
                PhaseData::new(phase_id)
            },
        }
    }

    /// Replaces the record of `phase_id` by what `update` makes of it and
    /// bumps the version; does nothing when the phase has no record.
    pub fn update_phase<F: FnOnce(PhaseData) -> PhaseData>(&mut self, phase_id: PhaseId, update: F) -> (r: Result<(), RabiaError>)
        requires
            forall|p: PhaseData| #[trigger] update.requires((p,)),
        ensures
            r is Ok,
            old(self).phase_records().contains_key(phase_id.0 as u128) ==> {
                &&& final(self).phase_records().contains_key(phase_id.0 as u128)
                &&& update.ensures((old(self).phase_records()[phase_id.0 as u128],), final(self).phase_records()[phase_id.0 as u128])
                &&& final(self).phase_records() == old(self).phase_records().insert(phase_id.0 as u128, final(self).phase_records()[phase_id.0 as u128])
                &&& final(self).version() == bumped(old(self).version())
            },
            !old(self).phase_records().contains_key(phase_id.0 as u128) ==> {
                &&& final(self).phase_records() == old(self).phase_records()
                &&& final(self).version() == old(self).version()
            },
            final(self).phase() == old(self).phase(),
            final(self).committed() == old(self).committed(),
            final(self).active() == old(self).active(),
            final(self).quorum() == old(self).quorum(),
            final(self).pending() == old(self).pending(),
            final(self).responses() == old(self).responses(),
            final(self).active_set() == old(self).active_set(),
            final(self).required_quorum() == old(self).required_quorum(),
    {
        let key = phase_id.0 as u128;
        match self.phases.remove(key) {
            Some(p) => {
                let updated = update(p);
                self.phases.insert(key, updated);
                proof {
                    assert(self.phases.map() =~= old(self).phases.map().insert(key, self.phases.map()[key]));
                }
                self.increment_version();
            },
            None => {},
        }
        Ok(())
    }

    /// A copy of the record of `phase_id`, if any.
    pub fn get_phase(&self, phase_id: &PhaseId) -> (r: Option<PhaseData>)
        ensures
            r matches Some(p) ==> self.phase_records().contains_key(phase_id.0 as u128)
                && p@ == self.phase_records()[phase_id.0 as u128]@,
            r is None ==> !self.phase_records().contains_key(phase_id.0 as u128),
    {
        match self.phases.get(phase_id.0 as u128) {
            Some(p) => Some(p.clone()),
            None => None,
        }
    }

    /// Removes the records of phases more than `max_phase_history` phases
    /// behind the current one; returns how many were removed. A removal
    /// bumps the version and records the time of the cleanup.
    pub fn cleanup_old_phases(&mut self, max_phase_history: usize) -> (removed: usize)
        ensures
            ({
                let cutoff: int = if old(self).phase() > max_phase_history { old(self).phase() - max_phase_history } else { 0 };
                final(self).phase_records() == old(self).phase_records().restrict(
                    old(self).phase_records().dom().filter(|k: u128| k >= cutoff))
            }),
            removed == old(self).phase_records().len() - final(self).phase_records().len(),
            final(self).version() == if removed > 0 { bumped(old(self).version()) } else { old(self).version() },
            final(self).phase() == old(self).phase(),
            final(self).committed() == old(self).committed(),
            final(self).active() == old(self).active(),
            final(self).quorum() == old(self).quorum(),
            final(self).pending() == old(self).pending(),
            final(self).responses() == old(self).responses(),
            final(self).active_set() == old(self).active_set(),
            final(self).required_quorum() == old(self).required_quorum(),
    {
        let cutoff: u64 = if self.current_phase as u128 > max_phase_history as u128 {
            (self.current_phase as u128 - max_phase_history as u128) as u64
        } else {
            0
        };
        let ghost p = |e: (u128, PhaseData)| e.0 >= cutoff;
        let keep = |e: &(u128, PhaseData)| -> (b: bool)
            ensures
                b == (e.0 >= cutoff),
        {
            e.0 >= cutoff as u128
        };
        let before = self.phases.len();
        let removed = self.phases.retain(keep, Ghost(p));
        let after = self.phases.len();
        proof {
            crate::table::lemma_entries_len(old(self).phases.entries());
            crate::table::lemma_entries_len(self.phases.entries());
        }
        proof {
            assert(self.phases.map() =~= old(self).phases.map().restrict(
                old(self).phases.map().dom().filter(|k: u128| k >= cutoff)));
        }
        if removed > 0 {
            self.increment_version();
            self.last_cleanup = unix_time_secs();
        }
        removed
    }

    /// What removing the pending batches received before `now -
    /// max_age_secs` seconds does (`now` in milliseconds, the cutoff not
    /// below 0): `after` keeps exactly the pending batches of `before`
    /// received at or after the cutoff, `removed` counts the others, a
    /// removal bumps the version, and nothing else changes.
    pub open spec fn pending_cleanup(before: EngineState, after: EngineState, removed: usize, now: u64, max_age_secs: u64) -> bool {
        let cutoff: int = if now >= max_age_secs * 1000 { now - max_age_secs * 1000 } else { 0 };
        &&& after.pending() == before.pending().restrict(
            before.pending().dom().filter(|k: u128| before.pending()[k].received_timestamp >= cutoff))
        &&& removed == before.pending().len() - after.pending().len()
        &&& after.version() == if removed > 0 { bumped(before.version()) } else { before.version() }
        &&& after.phase() == before.phase()
        &&& after.committed() == before.committed()
        &&& after.active() == before.active()
        &&& after.quorum() == before.quorum()
        &&& after.phase_records() == before.phase_records()
        &&& after.responses() == before.responses()
        &&& after.active_set() == before.active_set()
        &&& after.required_quorum() == before.required_quorum()
    }

    /// Removes the pending batches received before `now - max_age_secs`
    /// seconds (`now` in milliseconds, the cutoff not below 0); returns how
    /// many were removed. A removal bumps the version.
    pub fn cleanup_old_pending_batches_at(&mut self, now: u64, max_age_secs: u64) -> (removed: usize)
        ensures
            EngineState::pending_cleanup(*old(self), *final(self), removed, now, max_age_secs),
    {
        let span = max_age_secs as u128 * 1000;
        let cutoff: u64 = if now as u128 >= span { (now as u128 - span) as u64 } else { 0 };
        let ghost p = |e: (u128, PendingBatch)| e.1.received_timestamp >= cutoff;
        let keep = |e: &(u128, PendingBatch)| -> (b: bool)
            ensures
                b == (e.1.received_timestamp >= cutoff),
        {
            e.1.received_timestamp >= cutoff
        };
        let before = self.pending_batches.len();
        let removed = self.pending_batches.retain(keep, Ghost(p));
        let after = self.pending_batches.len();
        proof {
            assert(self.pending_batches.map() =~= old(self).pending_batches.map().restrict(
                old(self).pending_batches.map().dom().filter(|k: u128| old(self).pending_batches.map()[k].received_timestamp >= cutoff)));
            crate::table::lemma_entries_len(old(self).pending_batches.entries());
            crate::table::lemma_entries_len(self.pending_batches.entries());
        }
        if removed > 0 {
            self.increment_version();
        }
        removed
    }

    /// Removes the pending batches older than `max_age_secs` seconds by the
    /// system clock; returns how many were removed. The time read is not
    /// known, so the contract says the removal is the one for some time.
    pub fn cleanup_old_pending_batches(&mut self, max_age_secs: u64) -> (removed: usize)
        ensures
            exists|now: u64| #[trigger] EngineState::pending_cleanup(*old(self), *final(self), removed, now, max_age_secs),
    {
        let now = unix_time_millis();
        let removed = self.cleanup_old_pending_batches_at(now, max_age_secs);
        assert(EngineState::pending_cleanup(*old(self), *self, removed, now, max_age_secs));
        removed
    }

    /// The version counter.
    pub fn get_state_version(&self) -> (r: u64)
        ensures
            r == self.version(),
    {
        self.state_version
    }

    /// Records `response` from `node_id`, replacing an earlier one.
    pub fn add_sync_response(&mut self, node_id: NodeId, response: SyncResponseMessage)
        ensures
            final(self).responses() == old(self).responses().insert(node_id.0, response),
            final(self).version() == old(self).version(),
            final(self).required_quorum() == old(self).required_quorum(),
            final(self).active() == old(self).active(),
            final(self).quorum() == old(self).quorum(),
            final(self).active_set() == old(self).active_set(),
            final(self).phase() == old(self).phase(),
            final(self).committed() == old(self).committed(),
            final(self).pending() == old(self).pending(),
            final(self).phase_records() == old(self).phase_records(),
    {
        self.sync_responses.insert(node_id.0, response);
    }

    /// Number of recorded synchronization responses.
    pub fn sync_response_count(&self) -> (r: usize)
        ensures
            r == self.responses().len(),
    {
        let n = self.sync_responses.len();
        proof {
            crate::table::lemma_entries_len(self.sync_responses.entries());
        }
        n
    }

    /// Copies of the recorded synchronization responses with their senders.
    pub fn get_sync_responses(&self) -> (r: Vec<(NodeId, SyncResponseMessage)>)
        ensures
            r@.len() == self.responses().len(),
            forall|i: int| 0 <= i < r@.len() ==> {
                &&& self.responses().contains_key(#[trigger] r@[i].0.0)
                &&& r@[i].1.responder_phase == self.responses()[r@[i].0.0].responder_phase
            },
    {
        let mut out: Vec<(NodeId, SyncResponseMessage)> = Vec::new();
        let n = self.sync_responses.len();
        let mut i: usize = 0;
        while i < n
            invariant
                i <= n,
                n == self.sync_responses.entries().len(),
                crate::table::keys_unique(self.sync_responses.entries()),
                out@.len() == i,
                forall|j: int| 0 <= j < i ==> {
                    &&& self.sync_responses.map().contains_key(#[trigger] out@[j].0.0)
                    &&& out@[j].1.responder_phase == self.sync_responses.map()[out@[j].0.0].responder_phase
                },
            decreases n - i,
        {
            let k = self.sync_responses.key_at(i);
            let v = self.sync_responses.value_at(i);
            proof { crate::table::lemma_entries_at(self.sync_responses.entries(), i as int); }
            out.push((NodeId(k), v.clone()));
            i = i + 1;
        }
        proof { crate::table::lemma_entries_len(self.sync_responses.entries()); }
        out
    }

    /// Forgets all synchronization responses.
    pub fn clear_sync_responses(&mut self)
        ensures
            final(self).responses() == Map::<u128, SyncResponseMessage>::empty(),
            final(self).version() == old(self).version(),
            final(self).required_quorum() == old(self).required_quorum(),
            final(self).active() == old(self).active(),
            final(self).quorum() == old(self).quorum(),
            final(self).active_set() == old(self).active_set(),
            final(self).phase() == old(self).phase(),
            final(self).committed() == old(self).committed(),
            final(self).pending() == old(self).pending(),
            final(self).phase_records() == old(self).phase_records(),
    {
        self.sync_responses.clear();
    }

    /// The counters of the state now.
    pub fn get_statistics(&self) -> (r: EngineStatistics)
        ensures
            r.current_phase.0 == self.phase(),
            r.last_committed_phase.0 == self.committed(),
            r.pending_batches_count == self.pending().len(),
            r.phases_count == self.phase_records().len(),
            r.active_nodes_count == self.active_set().len(),
            r.has_quorum == self.quorum(),
            r.is_active == self.active(),
            r.state_version == self.version(),
    {
        let pending_len = self.pending_batches.len();
        let phases_len = self.phases.len();
        proof {
            crate::table::lemma_entries_len(self.pending_batches.entries());
            crate::table::lemma_entries_len(self.phases.entries());
        }
        EngineStatistics {
            current_phase: self.current_phase(),
            last_committed_phase: self.last_committed_phase(),
            pending_batches_count: pending_len,
            phases_count: phases_len,
            active_nodes_count: self.active_nodes.len(),
            has_quorum: self.has_quorum,
            is_active: self.is_active,
            state_version: self.state_version,
        }
    }
}

/// Cleanup by age: a cleanup at `now` (milliseconds) with a limit of
/// `max_age_secs` seconds keeps, unchanged, exactly the pending batches
/// received no more than `max_age_secs * 1000` milliseconds before `now`;
/// a batch older than that is gone, and no batch is added.
pub proof fn lemma_pending_cleanup_by_age(before: EngineState, after: EngineState, removed: usize, now: u64, max_age_secs: u64, k: u128)
    requires
        EngineState::pending_cleanup(before, after, removed, now, max_age_secs),
    ensures
        after.pending().contains_key(k) ==> before.pending().contains_key(k) && after.pending()[k] == before.pending()[k],
        before.pending().contains_key(k) ==> (after.pending().contains_key(k)
            <==> before.pending()[k].received_timestamp + max_age_secs * 1000 >= now),
{
}

} // verus!
