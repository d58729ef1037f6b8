//! Protocol messages and the per-phase record of votes and decisions.

use vstd::prelude::*;
use crate::types::{BatchId, CommandBatch, CommandBatchView, NodeId, PhaseId, StateValue};
use crate::votes::{VoteMap, vote_lookup, count_of, seq_majority};
use crate::state_machine::Snapshot;
use crate::clock::unix_time_millis;
use crate::ids::{random_uuid_value, is_random_uuid};

verus! {

/// A message of the protocol: who sent it, to whom (`None` for a broadcast),
/// when, and what.
#[derive(Debug, Clone)]
pub struct ProtocolMessage {
    pub id: u128,
    pub from: NodeId,
    pub to: Option<NodeId>,
    pub timestamp: u64,
    pub message_type: MessageType,
}

impl ProtocolMessage {
    /// A message with a fresh identifier, stamped with the current time.
    pub fn new(from: NodeId, to: Option<NodeId>, message_type: MessageType) -> (r: ProtocolMessage)
        ensures
            r.from == from,
            r.to == to,
            r.message_type == message_type,
            is_random_uuid(r.id),
    {
        ProtocolMessage { id: random_uuid_value(), from, to, timestamp: unix_time_millis(), message_type }
    }

    /// A proposal, broadcast.
    pub fn propose(from: NodeId, proposal: ProposeMessage) -> (r: ProtocolMessage)
        ensures
            r.from == from,
            r.to is None,
            r.message_type == MessageType::Propose(proposal),
    {
        Self::new(from, None, MessageType::Propose(proposal))
    }

    /// A round 1 vote, sent to `to`.
    pub fn vote_round1(from: NodeId, to: NodeId, vote: VoteRound1Message) -> (r: ProtocolMessage)
        ensures
            r.from == from,
            r.to == Some(to),
            r.message_type == MessageType::VoteRound1(vote),
    {
        Self::new(from, Some(to), MessageType::VoteRound1(vote))
    }

    /// A round 2 vote, sent to `to`.
    pub fn vote_round2(from: NodeId, to: NodeId, vote: VoteRound2Message) -> (r: ProtocolMessage)
        ensures
            r.from == from,
            r.to == Some(to),
            r.message_type == MessageType::VoteRound2(vote),
    {
        Self::new(from, Some(to), MessageType::VoteRound2(vote))
    }

    /// A decision, broadcast.
    pub fn decision(from: NodeId, decision: DecisionMessage) -> (r: ProtocolMessage)
        ensures
            r.from == from,
            r.to is None,
            r.message_type == MessageType::Decision(decision),
    {
        Self::new(from, None, MessageType::Decision(decision))
    }

    /// A synchronization request, sent to `to`.
    pub fn sync_request(from: NodeId, to: NodeId, request: SyncRequestMessage) -> (r: ProtocolMessage)
        ensures
            r.from == from,
            r.to == Some(to),
            r.message_type == MessageType::SyncRequest(request),
    {
        Self::new(from, Some(to), MessageType::SyncRequest(request))
    }

    /// A synchronization response, sent to `to`.
    pub fn sync_response(from: NodeId, to: NodeId, response: SyncResponseMessage) -> (r: ProtocolMessage)
        ensures
            r.from == from,
            r.to == Some(to),
            r.message_type == MessageType::SyncResponse(response),
    {
        Self::new(from, Some(to), MessageType::SyncResponse(response))
    }

    /// A new batch announcement, broadcast.
    pub fn new_batch(from: NodeId, batch: NewBatchMessage) -> (r: ProtocolMessage)
        ensures
            r.from == from,
            r.to is None,
            r.message_type == MessageType::NewBatch(batch),
    {
        Self::new(from, None, MessageType::NewBatch(batch))
    }
}

/// The kinds of protocol messages.
#[derive(Debug, Clone)]
pub enum MessageType {
    Propose(ProposeMessage),
    VoteRound1(VoteRound1Message),
    VoteRound2(VoteRound2Message),
    Decision(DecisionMessage),
    SyncRequest(SyncRequestMessage),
    SyncResponse(SyncResponseMessage),
    NewBatch(NewBatchMessage),
    HeartBeat(HeartBeatMessage),
    QuorumNotification(QuorumNotificationMessage),
}

/// A proposal of a batch for a phase.
#[derive(Debug, Clone)]
pub struct ProposeMessage {
    pub phase_id: PhaseId,
    pub batch_id: BatchId,
    pub value: StateValue,
    pub batch: Option<CommandBatch>,
}

/// A vote of round 1.
#[derive(Debug, Clone, Copy)]
pub struct VoteRound1Message {
    pub phase_id: PhaseId,
    pub batch_id: BatchId,
    pub vote: StateValue,
    pub voter_id: NodeId,
}

/// A vote of round 2, with the round 1 votes it was based on.
#[derive(Debug, Clone)]
pub struct VoteRound2Message {
    pub phase_id: PhaseId,
    pub batch_id: BatchId,
    pub vote: StateValue,
    pub voter_id: NodeId,
    pub round1_votes: VoteMap,
}

/// The decision reached for a phase.
#[derive(Debug, Clone)]
pub struct DecisionMessage {
    pub phase_id: PhaseId,
    pub batch_id: BatchId,
    pub decision: StateValue,
    pub batch: Option<CommandBatch>,
}

/// A request for the state of peers ahead of the requester.
#[derive(Debug, Clone, Copy)]
pub struct SyncRequestMessage {
    pub requester_phase: PhaseId,
    pub requester_state_version: u64,
}

/// A peer's answer to a synchronization request.
#[derive(Debug)]
pub struct SyncResponseMessage {
    pub responder_phase: PhaseId,
    pub responder_state_version: u64,
    pub state_snapshot: Option<Snapshot>,
    pub pending_batches: Vec<(BatchId, CommandBatch)>,
    pub committed_phases: Vec<(PhaseId, BatchId, StateValue)>,
}

impl Clone for SyncResponseMessage {
    /// A copy with the same phase, version, snapshot and number of
    /// pending batches and committed phases.
    fn clone(&self) -> (r: SyncResponseMessage)
        ensures
            r.responder_phase == self.responder_phase,
            r.responder_state_version == self.responder_state_version,
            r.state_snapshot is Some == self.state_snapshot is Some,
            r.state_snapshot matches Some(s) ==> (self.state_snapshot matches Some(t)
                && s.version == t.version && s.data@ == t.data@ && s.checksum == t.checksum),
            r.committed_phases@ == self.committed_phases@,
            r.pending_batches@.len() == self.pending_batches@.len(),
    {
        let state_snapshot = match &self.state_snapshot {
            Some(s) => Some(s.clone()),
            None => None,
        };
        let mut pending_batches: Vec<(BatchId, CommandBatch)> = Vec::new();
        let mut i: usize = 0;
        while i < self.pending_batches.len()
            invariant
                i <= self.pending_batches@.len(),
                pending_batches@.len() == i,
            decreases self.pending_batches@.len() - i,
        {
            let (id, b) = &self.pending_batches[i];
            pending_batches.push((*id, b.clone()));
            i = i + 1;
        }
        let mut committed_phases: Vec<(PhaseId, BatchId, StateValue)> = Vec::new();
        let mut j: usize = 0;
        while j < self.committed_phases.len()
            invariant
                j <= self.committed_phases@.len(),
                committed_phases@ == self.committed_phases@.take(j as int),
            decreases self.committed_phases@.len() - j,
        {
            committed_phases.push(self.committed_phases[j]);
            j = j + 1;
            assert(committed_phases@ =~= self.committed_phases@.take(j as int));
        }
        assert(self.committed_phases@.take(self.committed_phases@.len() as int) =~= self.committed_phases@);
        SyncResponseMessage {
            responder_phase: self.responder_phase,
            responder_state_version: self.responder_state_version,
            state_snapshot,
            pending_batches,
            committed_phases,
        }
    }
}

/// A batch announced by its originator.
#[derive(Debug, Clone)]
pub struct NewBatchMessage {
    pub batch: CommandBatch,
    pub originator: NodeId,
}

/// A periodic liveness message.
#[derive(Debug, Clone, Copy)]
pub struct HeartBeatMessage {
    pub current_phase: PhaseId,
    pub last_committed_phase: PhaseId,
    pub active: bool,
}

/// A notice of whether the cluster has a quorum, and of its active nodes.
#[derive(Debug, Clone)]
pub struct QuorumNotificationMessage {
    pub has_quorum: bool,
    pub active_nodes: Vec<NodeId>,
}

/// What a node knows of one phase: the proposal, the votes of both rounds
/// and the decision.
#[derive(Debug)]
pub struct PhaseData {
    pub phase_id: PhaseId,
    pub batch_id: Option<BatchId>,
    pub proposed_value: Option<StateValue>,
    pub round1_votes: VoteMap,
    pub round2_votes: VoteMap,
    pub decision: Option<StateValue>,
    pub batch: Option<CommandBatch>,
    pub timestamp: u64,
    pub is_committed: bool,
}

/// The value of a phase record, votes and batch taken by their contents.
pub struct PhaseDataView {
    pub phase_id: PhaseId,
    pub batch_id: Option<BatchId>,
    pub proposed_value: Option<StateValue>,
    pub round1_votes: Seq<(NodeId, StateValue)>,
    pub round2_votes: Seq<(NodeId, StateValue)>,
    pub decision: Option<StateValue>,
    pub batch: Option<CommandBatchView>,
    pub timestamp: u64,
    pub is_committed: bool,
}

/// The value of an optional batch.
pub open spec fn batch_option_view(b: Option<CommandBatch>) -> Option<CommandBatchView> {
    match b {
        Some(b) => Some(b@),
        None => None,
    }
}

/// A copy of an optional batch.
pub fn copy_batch_option(b: &Option<CommandBatch>) -> (r: Option<CommandBatch>)
    ensures
        batch_option_view(r) == batch_option_view(*b),
{
    match b {
        Some(b) => Some(b.clone()),
        None => None,
    }
}

impl View for PhaseData {
    type V = PhaseDataView;

    open spec fn view(&self) -> PhaseDataView {
        PhaseDataView {
            phase_id: self.phase_id,
            batch_id: self.batch_id,
            proposed_value: self.proposed_value,
            round1_votes: self.round1_votes@,
            round2_votes: self.round2_votes@,
            decision: self.decision,
            batch: batch_option_view(self.batch),
            timestamp: self.timestamp,
            is_committed: self.is_committed,
        }
    }
}

impl Clone for PhaseData {
    /// A copy with the same contents.
    fn clone(&self) -> (r: PhaseData)
        ensures
            r@ == self@,
    {
        PhaseData {
            phase_id: self.phase_id,
            batch_id: self.batch_id,
            proposed_value: self.proposed_value,
            round1_votes: self.round1_votes.clone(),
            round2_votes: self.round2_votes.clone(),
            decision: self.decision,
            batch: copy_batch_option(&self.batch),
            timestamp: self.timestamp,
            is_committed: self.is_committed,
        }
    }
}

impl PhaseData {
    /// A record of phase `phase_id` with no proposal, votes or decision yet,
    /// stamped with the current time.
    pub fn new(phase_id: PhaseId) -> (r: PhaseData)
        ensures
            r.phase_id == phase_id,
            r.batch_id is None,
            r.proposed_value is None,
            r.round1_votes@.len() == 0,
            r.round2_votes@.len() == 0,
            r.decision is None,
            r.batch is None,
            !r.is_committed,
    {
        PhaseData {
            phase_id,
            batch_id: None,
            proposed_value: None,
            round1_votes: VoteMap::new(),
            round2_votes: VoteMap::new(),
            decision: None,
            batch: None,
            timestamp: unix_time_millis(),
            is_committed: false,
        }
    }

    /// Records `voter`'s round 1 vote, replacing an earlier one.
    pub fn add_round1_vote(&mut self, voter: NodeId, vote: StateValue)
        ensures
            forall|k: NodeId| #[trigger] vote_lookup(final(self).round1_votes@, k)
                == if k == voter { Some(vote) } else { vote_lookup(old(self).round1_votes@, k) },
            forall|v: StateValue| #[trigger] count_of(final(self).round1_votes@, v)
                == count_of(old(self).round1_votes@, v) + (if vote == v { 1nat } else { 0nat })
                    - (if vote_lookup(old(self).round1_votes@, voter) == Some(v) { 1nat } else { 0nat }),
            final(self).round2_votes@ == old(self).round2_votes@,
            final(self).phase_id == old(self).phase_id,
            final(self).batch_id == old(self).batch_id,
            final(self).proposed_value == old(self).proposed_value,
            final(self).decision == old(self).decision,
            final(self).batch == old(self).batch,
            final(self).timestamp == old(self).timestamp,
            final(self).is_committed == old(self).is_committed,
    {
        self.round1_votes.insert(voter, vote);
    }

    /// Records `voter`'s round 2 vote, replacing an earlier one.
    pub fn add_round2_vote(&mut self, voter: NodeId, vote: StateValue)
        ensures
            forall|k: NodeId| #[trigger] vote_lookup(final(self).round2_votes@, k)
                == if k == voter { Some(vote) } else { vote_lookup(old(self).round2_votes@, k) },
            forall|v: StateValue| #[trigger] count_of(final(self).round2_votes@, v)
                == count_of(old(self).round2_votes@, v) + (if vote == v { 1nat } else { 0nat })
                    - (if vote_lookup(old(self).round2_votes@, voter) == Some(v) { 1nat } else { 0nat }),
            final(self).round1_votes@ == old(self).round1_votes@,
            final(self).phase_id == old(self).phase_id,
            final(self).batch_id == old(self).batch_id,
            final(self).proposed_value == old(self).proposed_value,
            final(self).decision == old(self).decision,
            final(self).batch == old(self).batch,
            final(self).timestamp == old(self).timestamp,
            final(self).is_committed == old(self).is_committed,
    {
        self.round2_votes.insert(voter, vote);
    }

    /// The value with at least `quorum_size` round 1 votes (V0 checked
    /// first, then V1, then V?), if any.
    pub fn has_round1_majority(&self, quorum_size: usize) -> (r: Option<StateValue>)
        ensures
            r == seq_majority(self.round1_votes@, quorum_size as nat),
    {
        self.round1_votes.majority(quorum_size)
    }

    /// The value with at least `quorum_size` round 2 votes (V0 checked
    /// first, then V1, then V?), if any.
    pub fn has_round2_majority(&self, quorum_size: usize) -> (r: Option<StateValue>)
        ensures
            r == seq_majority(self.round2_votes@, quorum_size as nat),
    {
        self.round2_votes.majority(quorum_size)
    }

    /// The larger of the two rounds' vote counts.
    pub fn total_votes(&self) -> (r: usize)
        ensures
            r == if self.round1_votes@.len() >= self.round2_votes@.len() {
                self.round1_votes@.len()
            } else {
                self.round2_votes@.len()
            },
    {
        let a = self.round1_votes.len();
        let b = self.round2_votes.len();
        if a >= b { a } else { b }
    }

    /// Records the decision; a decision of V0 or V1 also marks the phase
    /// committed.
    pub fn set_decision(&mut self, decision: StateValue)
        ensures
            final(self).decision == Some(decision),
            final(self).is_committed == (old(self).is_committed || decision != StateValue::VQuestion),
            final(self).round1_votes@ == old(self).round1_votes@,
            final(self).round2_votes@ == old(self).round2_votes@,
            final(self).phase_id == old(self).phase_id,
            final(self).batch_id == old(self).batch_id,
            final(self).proposed_value == old(self).proposed_value,
            final(self).batch == old(self).batch,
    {
        self.decision = Some(decision);
        if decision != StateValue::VQuestion {
            self.is_committed = true;
        }
    }
}

/// A batch waiting for consensus, with its originator and retry count.
#[derive(Debug)]
pub struct PendingBatch {
    pub batch: CommandBatch,
    pub originator: NodeId,
    pub received_timestamp: u64,
    pub retry_count: usize,
}

/// The value of a pending batch.
pub struct PendingBatchView {
    pub batch: CommandBatchView,
    pub originator: NodeId,
    pub received_timestamp: u64,
    pub retry_count: usize,
}

impl View for PendingBatch {
    type V = PendingBatchView;

    open spec fn view(&self) -> PendingBatchView {
        PendingBatchView {
            batch: self.batch@,
            originator: self.originator,
            received_timestamp: self.received_timestamp,
            retry_count: self.retry_count,
        }
    }
}

impl Clone for PendingBatch {
    /// A copy with the same contents.
    fn clone(&self) -> (r: PendingBatch)
        ensures
            r@ == self@,
    {
        PendingBatch {
            batch: self.batch.clone(),
            originator: self.originator,
            received_timestamp: self.received_timestamp,
            retry_count: self.retry_count,
        }
    }
}

/// The age at `now` of something received at `received`, in
/// milliseconds; 0 when `now` is earlier.
pub open spec fn age_at(received: u64, now: u64) -> u64 {
    if now >= received { (now - received) as u64 } else { 0 }
}

impl PendingBatch {
    /// A pending batch received now, not yet retried.
    pub fn new(batch: CommandBatch, originator: NodeId) -> (r: PendingBatch)
        ensures
            r.batch == batch,
            r.originator == originator,
            r.retry_count == 0,
    {
        PendingBatch { batch, originator, received_timestamp: unix_time_millis(), retry_count: 0 }
    }

    /// Counts one more retry.
    pub fn increment_retry(&mut self)
        requires
            old(self).retry_count < usize::MAX,
        ensures
            final(self).retry_count == old(self).retry_count + 1,
            final(self).batch == old(self).batch,
            final(self).originator == old(self).originator,
            final(self).received_timestamp == old(self).received_timestamp,
    {
        self.retry_count = self.retry_count + 1;
    }

    /// Milliseconds since the batch was received, given the current time in
    /// milliseconds; 0 if the clock reads earlier than the receipt.
    pub fn age_millis_at(&self, now: u64) -> (r: u64)
        ensures
            r == age_at(self.received_timestamp, now),
    {
        now.saturating_sub(self.received_timestamp)
    }

    /// Milliseconds since the batch was received, by the system clock: its
    /// age at the time read, which is not known to the contract.
    pub fn age_millis(&self) -> (r: u64)
        ensures
            exists|now: u64| r == #[trigger] age_at(self.received_timestamp, now),
    {
        let now = unix_time_millis();
        let r = self.age_millis_at(now);
        assert(r == age_at(self.received_timestamp, now));
        r
    }
}

} // verus!
