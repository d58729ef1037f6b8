//! The decisions of the consensus engine: votes of both rounds, what to do
//! on each message, when to apply a batch, and how to synchronize.
//!
//! The engine's driver sends and receives messages, applies batches to the
//! state machine and flips the random coins; everything it decides is
//! computed here.

use vstd::prelude::*;
use crate::types::{BatchId, CommandBatch, CommandBatchView, NodeId, PhaseId, StateValue};
use crate::messages::{
    DecisionMessage, HeartBeatMessage, MessageType, NewBatchMessage, PhaseData, ProposeMessage,
    ProtocolMessage, SyncRequestMessage, SyncResponseMessage, VoteRound1Message, VoteRound2Message,
    batch_option_view,
};
use crate::votes::{VoteMap, count_of, seq_majority, vote_lookup};
use crate::engine_state::{EngineState, bumped};
use crate::error::RabiaError;
use crate::state_machine::Snapshot;
use crate::validation::{message_valid_at, validate_message_at};
use crate::text::around_number;
use crate::ids::is_random_uuid;

verus! {

/// The phase records `after` differ from `before` at most in the record
/// of phase `key`: the same phases have records, and every other record
/// is unchanged.
pub open spec fn only_record_changed(before: Map<u128, PhaseData>, after: Map<u128, PhaseData>, key: u128) -> bool {
    &&& after.dom() == before.dom()
    &&& if before.contains_key(key) { after == before.insert(key, after[key]) } else { after == before }
}

/// `q` keeps every field of the phase record `p` but its votes.
pub open spec fn same_but_votes(p: PhaseData, q: PhaseData) -> bool {
    &&& q.phase_id == p.phase_id
    &&& q.batch_id == p.batch_id
    &&& q.proposed_value == p.proposed_value
    &&& q.decision == p.decision
    &&& q.batch == p.batch
    &&& q.timestamp == p.timestamp
    &&& q.is_committed == p.is_committed
}

/// `q` is the phase record `p` with `voter`'s round 1 vote set to `vote`:
/// every other voter's round 1 vote stays, the counts move by that one
/// vote, and the round 2 votes and the rest of the record are unchanged.
pub open spec fn round1_vote_added(p: PhaseData, q: PhaseData, voter: NodeId, vote: StateValue) -> bool {
    &&& forall|k: NodeId| #[trigger] vote_lookup(q.round1_votes@, k)
        == if k == voter { Some(vote) } else { vote_lookup(p.round1_votes@, k) }
    &&& forall|v: StateValue| #[trigger] count_of(q.round1_votes@, v)
        == count_of(p.round1_votes@, v) + (if vote == v { 1nat } else { 0nat })
            - (if vote_lookup(p.round1_votes@, voter) == Some(v) { 1nat } else { 0nat })
    &&& q.round2_votes@ == p.round2_votes@
    &&& same_but_votes(p, q)
}

/// `q` is the phase record `p` with `voter`'s round 2 vote set to `vote`:
/// every other voter's round 2 vote stays, the counts move by that one
/// vote, and the round 1 votes and the rest of the record are unchanged.
pub open spec fn round2_vote_added(p: PhaseData, q: PhaseData, voter: NodeId, vote: StateValue) -> bool {
    &&& forall|k: NodeId| #[trigger] vote_lookup(q.round2_votes@, k)
        == if k == voter { Some(vote) } else { vote_lookup(p.round2_votes@, k) }
    &&& forall|v: StateValue| #[trigger] count_of(q.round2_votes@, v)
        == count_of(p.round2_votes@, v) + (if vote == v { 1nat } else { 0nat })
            - (if vote_lookup(p.round2_votes@, voter) == Some(v) { 1nat } else { 0nat })
    &&& q.round1_votes@ == p.round1_votes@
    &&& same_but_votes(p, q)
}

/// `q` is the phase record `p` after a received proposal of `value` for
/// the batch `batch_id`, with contents `batch`, was recorded: the batch
/// identifier is set, the value and the batch only where none was set yet,
/// and the votes and the rest of the record are unchanged.
pub open spec fn proposal_recorded(p: PhaseData, q: PhaseData, batch_id: BatchId, value: StateValue, batch: Option<CommandBatchView>) -> bool {
    &&& q.batch_id == Some(batch_id)
    &&& q.proposed_value == if p.proposed_value is None { Some(value) } else { p.proposed_value }
    &&& batch_option_view(q.batch) == if p.batch is None { batch } else { batch_option_view(p.batch) }
    &&& q.phase_id == p.phase_id
    &&& q.round1_votes@ == p.round1_votes@
    &&& q.round2_votes@ == p.round2_votes@
    &&& q.decision == p.decision
    &&& q.timestamp == p.timestamp
    &&& q.is_committed == p.is_committed
}

/// `q` is the phase record `p` with this node's own proposal of `value`
/// for the batch `batch_id`, with contents `batch`, set in it; the votes
/// and the rest of the record are unchanged.
pub open spec fn proposal_set(p: PhaseData, q: PhaseData, batch_id: BatchId, value: StateValue, batch: CommandBatchView) -> bool {
    &&& q.batch_id == Some(batch_id)
    &&& q.proposed_value == Some(value)
    &&& batch_option_view(q.batch) == Some(batch)
    &&& q.phase_id == p.phase_id
    &&& q.round1_votes@ == p.round1_votes@
    &&& q.round2_votes@ == p.round2_votes@
    &&& q.decision == p.decision
    &&& q.timestamp == p.timestamp
    &&& q.is_committed == p.is_committed
}

/// The round 1 vote for a proposal seen for the first time: a V0 or V1
/// proposal is echoed when the coin comes up, else the vote is V?; a V?
/// proposal gets V?.
pub open spec fn spec_randomized_vote(proposed: StateValue, coin: bool) -> StateValue {
    match proposed {
        StateValue::V0 => if coin { StateValue::V0 } else { StateValue::VQuestion },
        StateValue::V1 => if coin { StateValue::V1 } else { StateValue::VQuestion },
        StateValue::VQuestion => StateValue::VQuestion,
    }
}

/// The chance, in percent, that the coin of a first-time round 1 vote comes
/// up: 50 for a V0 proposal, 60 for V1 (favouring progress), 0 for V?.
pub fn round1_coin_percent(proposed: StateValue) -> (r: u32)
    ensures
        r == match proposed {
            StateValue::V0 => 50u32,
            StateValue::V1 => 60u32,
            StateValue::VQuestion => 0u32,
        },
{
    match proposed {
        StateValue::V0 => 50,
        StateValue::V1 => 60,
        StateValue::VQuestion => 0,
    }
}

/// The round 1 vote for a proposal seen for the first time, given the coin.
pub fn randomized_vote(proposed: StateValue, coin: bool) -> (r: StateValue)
    ensures
        r == spec_randomized_vote(proposed, coin),
{
    match proposed {
        StateValue::V0 => if coin { StateValue::V0 } else { StateValue::VQuestion },
        StateValue::V1 => if coin { StateValue::V1 } else { StateValue::VQuestion },
        StateValue::VQuestion => StateValue::VQuestion,
    }
}

/// The round 1 vote on a proposal of `proposed` for a phase whose record is
/// `phase`: if a value was already proposed for the phase, the same value is
/// echoed and a different one gets V?; otherwise the vote is randomized.
pub open spec fn spec_round1_vote(phase: Option<PhaseData>, proposed: StateValue, coin: bool) -> StateValue {
    match phase {
        Some(p) => match p.proposed_value {
            Some(existing) => if existing == proposed { proposed } else { StateValue::VQuestion },
            None => spec_randomized_vote(proposed, coin),
        },
        None => spec_randomized_vote(proposed, coin),
    }
}

/// A proposal that conflicts with the value already proposed for its phase
/// gets V? in round 1, whatever the coin, and one that agrees with it is
/// echoed: a node never votes in round 1 for a value other than the one it
/// first saw proposed for the phase.
pub proof fn lemma_round1_vote_respects_earlier_proposal(record: PhaseData, proposed: StateValue, coin: bool)
    requires
        record.proposed_value is Some,
    ensures
        record.proposed_value != Some(proposed) ==> spec_round1_vote(Some(record), proposed, coin) == StateValue::VQuestion,
        record.proposed_value == Some(proposed) ==> spec_round1_vote(Some(record), proposed, coin) == proposed,
        spec_round1_vote(Some(record), proposed, coin) == StateValue::VQuestion
            || Some(spec_round1_vote(Some(record), proposed, coin)) == record.proposed_value,
{
}

/// For a phase with no earlier proposal the round 1 vote is the proposed
/// value when the coin comes up and V? otherwise: it is never the other of
/// V0 and V1.
pub proof fn lemma_round1_vote_first_proposal(record: Option<PhaseData>, proposed: StateValue, coin: bool)
    requires
        record matches Some(p) ==> p.proposed_value is None,
    ensures
        spec_round1_vote(record, proposed, coin) == proposed || spec_round1_vote(record, proposed, coin) == StateValue::VQuestion,
        coin ==> spec_round1_vote(record, proposed, coin) == proposed,
        !coin ==> spec_round1_vote(record, proposed, coin) == StateValue::VQuestion,
{
}

/// The round 1 vote on `propose`, given the phase's record and the coin.
pub fn determine_round1_vote(phase: &Option<PhaseData>, propose: &ProposeMessage, coin: bool) -> (r: StateValue)
    ensures
        r == spec_round1_vote(*phase, propose.value, coin),
{
    match phase {
        Some(existing_phase) => match existing_phase.proposed_value {
            Some(existing_value) => {
                if existing_value == propose.value {
                    propose.value
                } else {
                    StateValue::VQuestion
                }
            },
            None => randomized_vote(propose.value, coin),
        },
        None => randomized_vote(propose.value, coin),
    }
}

/// Which way an inconclusive round 1 leans: toward V1 when it had more V1
/// than V0 votes, toward V0 when fewer, and neither when tied.
pub enum Lean {
    TowardV1,
    TowardV0,
    Tied,
}

/// The lean of round 1 votes with `v1` votes for V1 and `v0` for V0.
pub open spec fn spec_lean(v1: nat, v0: nat) -> Lean {
    if v1 > v0 { Lean::TowardV1 } else if v1 < v0 { Lean::TowardV0 } else { Lean::Tied }
}

/// How the round 1 votes lean.
pub fn round1_lean(round1_votes: &VoteMap) -> (r: Lean)
    ensures
        r == spec_lean(count_of(round1_votes@, StateValue::V1), count_of(round1_votes@, StateValue::V0)),
{
    let v0 = round1_votes.count(StateValue::V0);
    let v1 = round1_votes.count(StateValue::V1);
    if v1 > v0 {
        Lean::TowardV1
    } else if v1 < v0 {
        Lean::TowardV0
    } else {
        Lean::Tied
    }
}

/// The chance, in percent, that the coin of a round 2 vote after an
/// inconclusive round 1 follows the lean: 80 toward V1, 70 toward V0, 60
/// (for V1) when tied.
pub fn round2_coin_percent(lean: &Lean) -> (r: u32)
    ensures
        r == match *lean {
            Lean::TowardV1 => 80u32,
            Lean::TowardV0 => 70u32,
            Lean::Tied => 60u32,
        },
{
    match lean {
        Lean::TowardV1 => 80,
        Lean::TowardV0 => 70,
        Lean::Tied => 60,
    }
}

/// The round 2 vote after round 1 gave `round1_result`: a definite result
/// is kept (for safety); after V? the vote follows the lean of the round 1
/// votes when the coin comes up (V1 when tied), and goes the other way
/// otherwise.
pub open spec fn spec_round2_vote(round1_result: StateValue, lean: Lean, coin: bool) -> StateValue {
    match round1_result {
        StateValue::V0 => StateValue::V0,
        StateValue::V1 => StateValue::V1,
        StateValue::VQuestion => match lean {
            Lean::TowardV1 => if coin { StateValue::V1 } else { StateValue::V0 },
            Lean::TowardV0 => if coin { StateValue::V0 } else { StateValue::V1 },
            Lean::Tied => if coin { StateValue::V1 } else { StateValue::V0 },
        },
    }
}

/// The round 2 vote, given round 1's result, its votes and the coin.
pub fn determine_round2_vote(round1_result: StateValue, round1_votes: &VoteMap, coin: bool) -> (r: StateValue)
    ensures
        r == spec_round2_vote(
            round1_result,
            spec_lean(count_of(round1_votes@, StateValue::V1), count_of(round1_votes@, StateValue::V0)),
            coin,
        ),
        round1_result != StateValue::VQuestion ==> r == round1_result,
        r != StateValue::VQuestion,
{
    match round1_result {
        StateValue::V0 => StateValue::V0,
        StateValue::V1 => StateValue::V1,
        StateValue::VQuestion => match round1_lean(round1_votes) {
            Lean::TowardV1 => if coin { StateValue::V1 } else { StateValue::V0 },
            Lean::TowardV0 => if coin { StateValue::V0 } else { StateValue::V1 },
            Lean::Tied => if coin { StateValue::V1 } else { StateValue::V0 },
        },
    }
}

/// The initial value a node proposes for its batch, given a fair coin: V0
/// when it comes up, else V1.
pub fn initial_proposal_value(coin: bool) -> (r: StateValue)
    ensures
        r == if coin { StateValue::V0 } else { StateValue::V1 },
{
    if coin { StateValue::V0 } else { StateValue::V1 }
}

/// Checks a received message: it must be valid at time `now` and claim to
/// come from the node it came from.
pub fn check_incoming(from: NodeId, message: &ProtocolMessage, now: u64) -> (r: Result<(), RabiaError>)
    ensures
        r is Ok <==> (message_valid_at(*message, now) && message.from == from),
        message_valid_at(*message, now) && message.from != from
            ==> (r matches Err(RabiaError::Network { message: m }) && m@ == "Message source mismatch"@),
{
    validate_message_at(message, now)?;
    if message.from != from {
        return Err(RabiaError::network("Message source mismatch"));
    }
    Ok(())
}

/// Starts consensus on a client's batch. Without a quorum the request is
/// refused with the current and required node counts. Otherwise the batch
/// becomes pending, the engine moves to the next phase, records the
/// proposal there (when the phase has a record) and returns the proposal to
/// broadcast; the proposed value is V0 when the coin comes up, else V1.
pub fn begin_proposal(state: &mut EngineState, node_id: NodeId, batch: CommandBatch, coin: bool) -> (r: Result<ProtocolMessage, RabiaError>)
    requires
        old(state).phase() < u64::MAX,
    ensures
        !old(state).quorum() ==> {
            &&& r matches Err(RabiaError::QuorumNotAvailable { current: c, required: q })
            &&& c == old(state).active_set().len()
            &&& q == old(state).required_quorum()
            &&& *final(state) == *old(state)
        },
        old(state).quorum() ==> {
            &&& r matches Ok(m)
            &&& m.from == node_id
            &&& m.to is None
            &&& m.message_type matches MessageType::Propose(p)
            &&& p.phase_id.0 == old(state).phase() + 1
            &&& p.batch_id == batch.id
            &&& p.value == (if coin { StateValue::V0 } else { StateValue::V1 })
            &&& p.batch matches Some(b) && b@ == batch@
            &&& final(state).phase() == old(state).phase() + 1
            &&& final(state).pending().contains_key(batch.id.0)
            &&& final(state).pending()[batch.id.0].batch@ == batch@
            &&& final(state).pending()[batch.id.0].originator == node_id
            &&& final(state).pending().remove(batch.id.0) == old(state).pending().remove(batch.id.0)
            &&& final(state).committed() == old(state).committed()
            &&& only_record_changed(old(state).phase_records(), final(state).phase_records(), (old(state).phase() + 1) as u128)
            &&& (old(state).phase_records().contains_key((old(state).phase() + 1) as u128) ==> proposal_set(
                old(state).phase_records()[(old(state).phase() + 1) as u128],
                final(state).phase_records()[(old(state).phase() + 1) as u128],
                batch.id,
                p.value,
                batch@,
            ))
        },
{
    if !state.has_quorum() {
        let current = state.get_active_nodes().len();
        return Err(RabiaError::QuorumNotAvailable { current, required: state.quorum_size() });
    }
    let copy = batch.clone();
    let batch_id = state.add_pending_batch(copy, node_id);
    let phase_id = state.advance_phase();
    let initial_value = initial_proposal_value(coin);
    let record = batch.clone();
    let ghost record_view = batch@;
    let _ = state.update_phase(phase_id, move |p: PhaseData| -> (q: PhaseData)
        ensures
            proposal_set(p, q, batch_id, initial_value, record_view),
    {
        let mut q = p;
        q.batch_id = Some(batch_id);
        q.proposed_value = Some(initial_value);
        q.batch = Some(record);
        q
    });
    proof {
        assert(state.phase_records().dom() =~= old(state).phase_records().dom());
    }
    let proposal = ProposeMessage { phase_id, batch_id, value: initial_value, batch: Some(batch) };
    Ok(ProtocolMessage::propose(node_id, proposal))
}

/// Handles a proposal from `from`. Without a quorum it is ignored. Else its
/// batch becomes pending, the node's round 1 vote is chosen from the phase's
/// record and the coin, the proposal is recorded (when the phase has a
/// record, without overwriting an earlier proposal or batch), and the vote
/// is returned for sending to the proposer.
pub fn on_propose(state: &mut EngineState, node_id: NodeId, from: NodeId, propose: ProposeMessage, coin: bool) -> (r: Option<ProtocolMessage>)
    ensures
        !old(state).quorum() ==> r is None && *final(state) == *old(state),
        old(state).quorum() ==> {
            let record = if old(state).phase_records().contains_key(propose.phase_id.0 as u128) {
                Some(old(state).phase_records()[propose.phase_id.0 as u128])
            } else {
                None
            };
            &&& r matches Some(m)
            &&& m.from == node_id
            &&& m.to == Some(from)
            &&& m.message_type matches MessageType::VoteRound1(v)
            &&& v.phase_id == propose.phase_id
            &&& v.batch_id == propose.batch_id
            &&& v.voter_id == node_id
            &&& v.vote == spec_round1_vote(record, propose.value, coin)
            &&& final(state).phase() == old(state).phase()
            &&& final(state).committed() == old(state).committed()
            &&& (propose.batch matches Some(b) ==> {
                &&& final(state).pending().contains_key(b.id.0)
                &&& final(state).pending()[b.id.0].batch@ == b@
                &&& final(state).pending()[b.id.0].originator == from
                &&& final(state).pending().remove(b.id.0) == old(state).pending().remove(b.id.0)
            })
            &&& (propose.batch is None ==> final(state).pending() == old(state).pending())
            &&& only_record_changed(old(state).phase_records(), final(state).phase_records(), propose.phase_id.0 as u128)
            &&& (old(state).phase_records().contains_key(propose.phase_id.0 as u128) ==> proposal_recorded(
                old(state).phase_records()[propose.phase_id.0 as u128],
                final(state).phase_records()[propose.phase_id.0 as u128],
                propose.batch_id,
                propose.value,
                batch_option_view(propose.batch),
            ))
        },
{
    if !state.has_quorum() {
        return None;
    }
    if let Some(batch) = &propose.batch {
        state.add_pending_batch(batch.clone(), from);
    }
    let phase = state.get_phase(&propose.phase_id);
    let ghost record = if state.phase_records().contains_key(propose.phase_id.0 as u128) {
        Some(state.phase_records()[propose.phase_id.0 as u128])
    } else {
        None
    };
    let vote = determine_round1_vote(&phase, &propose, coin);
    proof {
        assert(vote == spec_round1_vote(record, propose.value, coin));
    }
    let batch_id = propose.batch_id;
    let value = propose.value;
    let proposed_batch = crate::messages::copy_batch_option(&propose.batch);
    let ghost proposed_view = batch_option_view(propose.batch);
    let _ = state.update_phase(propose.phase_id, move |p: PhaseData| -> (q: PhaseData)
        ensures
            proposal_recorded(p, q, batch_id, value, proposed_view),
    {
        let mut q = p;
        q.batch_id = Some(batch_id);
        if q.proposed_value.is_none() {
            q.proposed_value = Some(value);
        }
        if q.batch.is_none() {
            q.batch = proposed_batch;
        }
        q
    });
    proof {
        assert(state.phase_records().dom() =~= old(state).phase_records().dom());
    }
    let vote_msg = VoteRound1Message { phase_id: propose.phase_id, batch_id: propose.batch_id, vote, voter_id: node_id };
    Some(ProtocolMessage::vote_round1(node_id, from, vote_msg))
}

/// Records a round 1 vote from `from` (when the phase has a record) and
/// returns the round 1 result with its votes once a value reaches the
/// quorum.
pub fn on_vote_round1(state: &mut EngineState, from: NodeId, vote: VoteRound1Message) -> (r: Option<(StateValue, VoteMap)>)
    ensures
        !old(state).phase_records().contains_key(vote.phase_id.0 as u128) ==> r is None,
        final(state).phase_records().contains_key(vote.phase_id.0 as u128) ==> {
            let p = final(state).phase_records()[vote.phase_id.0 as u128];
            &&& vote_lookup(p.round1_votes@, from) == Some(vote.vote)
            &&& r matches Some((v, votes)) ==> (v == seq_majority(p.round1_votes@, old(state).required_quorum() as nat).unwrap()
                && votes@ == p.round1_votes@)
            &&& r is None <==> seq_majority(p.round1_votes@, old(state).required_quorum() as nat) is None
        },
        old(state).phase_records().contains_key(vote.phase_id.0 as u128) ==> {
            &&& round1_vote_added(old(state).phase_records()[vote.phase_id.0 as u128],
                final(state).phase_records()[vote.phase_id.0 as u128], from, vote.vote)
            &&& final(state).version() == bumped(old(state).version())
        },
        !old(state).phase_records().contains_key(vote.phase_id.0 as u128) ==> {
            &&& final(state).phase_records() == old(state).phase_records()
            &&& final(state).version() == old(state).version()
        },
        only_record_changed(old(state).phase_records(), final(state).phase_records(), vote.phase_id.0 as u128),
        final(state).phase() == old(state).phase(),
        final(state).committed() == old(state).committed(),
        final(state).pending() == old(state).pending(),
        final(state).required_quorum() == old(state).required_quorum(),
{
    let v = vote.vote;
    let _ = state.update_phase(vote.phase_id, move |p: PhaseData| -> (q: PhaseData)
        ensures
            round1_vote_added(p, q, from, v),
    {
        let mut q = p;
        q.add_round1_vote(from, v);
        q
    });
    proof {
        assert(state.phase_records().dom() =~= old(state).phase_records().dom());
    }
    match state.get_phase(&vote.phase_id) {
        Some(phase) => {
            match phase.has_round1_majority(state.quorum_size()) {
                Some(majority) => Some((majority, phase.round1_votes.clone())),
                None => None,
            }
        },
        None => None,
    }
}

/// Casts the node's round 2 vote after round 1 gave `round1_result`: the
/// vote (see `determine_round2_vote`) is recorded in the phase (when it has
/// a record) and returned as a message carrying the round 1 votes, for
/// broadcast. The batch identifier is the phase's, or a fresh one.
pub fn proceed_to_round2(
    state: &mut EngineState,
    node_id: NodeId,
    phase_id: PhaseId,
    round1_result: StateValue,
    round1_votes: VoteMap,
    coin: bool,
) -> (r: ProtocolMessage)
    ensures
        r.from == node_id,
        r.to == Some(node_id),
        (r.message_type matches MessageType::VoteRound2(v)
            && v.phase_id == phase_id
            && v.voter_id == node_id
            && v.vote == spec_round2_vote(
                round1_result,
                spec_lean(count_of(round1_votes@, StateValue::V1), count_of(round1_votes@, StateValue::V0)),
                coin,
            )
            && v.round1_votes@ == round1_votes@
            && (old(state).phase_records().contains_key(phase_id.0 as u128)
                && old(state).phase_records()[phase_id.0 as u128].batch_id is Some
                ==> Some(v.batch_id) == old(state).phase_records()[phase_id.0 as u128].batch_id)
            && (!(old(state).phase_records().contains_key(phase_id.0 as u128)
                && old(state).phase_records()[phase_id.0 as u128].batch_id is Some)
                ==> is_random_uuid(v.batch_id.0))),
        final(state).phase_records().contains_key(phase_id.0 as u128)
            ==> vote_lookup(final(state).phase_records()[phase_id.0 as u128].round2_votes@, node_id)
                == Some(spec_round2_vote(
                    round1_result,
                    spec_lean(count_of(round1_votes@, StateValue::V1), count_of(round1_votes@, StateValue::V0)),
                    coin,
                )),
        old(state).phase_records().contains_key(phase_id.0 as u128) ==> {
            &&& round2_vote_added(old(state).phase_records()[phase_id.0 as u128],
                final(state).phase_records()[phase_id.0 as u128], node_id,
                spec_round2_vote(
                    round1_result,
                    spec_lean(count_of(round1_votes@, StateValue::V1), count_of(round1_votes@, StateValue::V0)),
                    coin,
                ))
            &&& final(state).version() == bumped(old(state).version())
        },
        !old(state).phase_records().contains_key(phase_id.0 as u128) ==> {
            &&& final(state).phase_records() == old(state).phase_records()
            &&& final(state).version() == old(state).version()
        },
        only_record_changed(old(state).phase_records(), final(state).phase_records(), phase_id.0 as u128),
        final(state).phase() == old(state).phase(),
        final(state).committed() == old(state).committed(),
        final(state).pending() == old(state).pending(),
{
    let round2_vote = determine_round2_vote(round1_result, &round1_votes, coin);
    let _ = state.update_phase(phase_id, move |p: PhaseData| -> (q: PhaseData)
        ensures
            round2_vote_added(p, q, node_id, round2_vote),
    {
        let mut q = p;
        q.add_round2_vote(node_id, round2_vote);
        q
    });
    proof {
        assert(state.phase_records().dom() =~= old(state).phase_records().dom());
    }
    let batch_id = match state.get_phase(&phase_id) {
        Some(p) => match p.batch_id {
            Some(b) => b,
            None => BatchId::new(),
        },
        None => BatchId::new(),
    };
    let vote_msg = VoteRound2Message { phase_id, batch_id, vote: round2_vote, voter_id: node_id, round1_votes };
    ProtocolMessage::vote_round2(node_id, node_id, vote_msg)
}

/// Records a round 2 vote from `from` (when the phase has a record) and
/// returns the decision once a value reaches the quorum.
pub fn on_vote_round2(state: &mut EngineState, from: NodeId, vote: VoteRound2Message) -> (r: Option<StateValue>)
    ensures
        !old(state).phase_records().contains_key(vote.phase_id.0 as u128) ==> r is None,
        final(state).phase_records().contains_key(vote.phase_id.0 as u128) ==> {
            let p = final(state).phase_records()[vote.phase_id.0 as u128];
            &&& vote_lookup(p.round2_votes@, from) == Some(vote.vote)
            &&& r == seq_majority(p.round2_votes@, old(state).required_quorum() as nat)
        },
        old(state).phase_records().contains_key(vote.phase_id.0 as u128) ==> {
            &&& round2_vote_added(old(state).phase_records()[vote.phase_id.0 as u128],
                final(state).phase_records()[vote.phase_id.0 as u128], from, vote.vote)
            &&& final(state).version() == bumped(old(state).version())
        },
        !old(state).phase_records().contains_key(vote.phase_id.0 as u128) ==> {
            &&& final(state).phase_records() == old(state).phase_records()
            &&& final(state).version() == old(state).version()
        },
        only_record_changed(old(state).phase_records(), final(state).phase_records(), vote.phase_id.0 as u128),
        final(state).phase() == old(state).phase(),
        final(state).committed() == old(state).committed(),
        final(state).pending() == old(state).pending(),
        final(state).required_quorum() == old(state).required_quorum(),
{
    let v = vote.vote;
    let _ = state.update_phase(vote.phase_id, move |p: PhaseData| -> (q: PhaseData)
        ensures
            round2_vote_added(p, q, from, v),
    {
        let mut q = p;
        q.add_round2_vote(from, v);
        q
    });
    proof {
        assert(state.phase_records().dom() =~= old(state).phase_records().dom());
    }
    match state.get_phase(&vote.phase_id) {
        Some(phase) => phase.has_round2_majority(state.quorum_size()),
        None => None,
    }
}

/// Records the decision for `phase_id` (when the phase has a record) and
/// returns the batch to apply: the phase's batch when the decision is V1.
pub fn begin_decision(state: &mut EngineState, phase_id: PhaseId, decision: StateValue) -> (r: Option<CommandBatch>)
    ensures
        r is Some ==> decision == StateValue::V1,
        r matches Some(b) ==> (final(state).phase_records().contains_key(phase_id.0 as u128)
            && batch_option_view(final(state).phase_records()[phase_id.0 as u128].batch) == Some(b@)),
        batch_option_view(r) == if decision == StateValue::V1 && final(state).phase_records().contains_key(phase_id.0 as u128) {
            batch_option_view(final(state).phase_records()[phase_id.0 as u128].batch)
        } else {
            None
        },
        final(state).phase_records().contains_key(phase_id.0 as u128) ==>
            final(state).phase_records()[phase_id.0 as u128].decision == Some(decision),
        old(state).phase_records().contains_key(phase_id.0 as u128) ==>
            batch_option_view(final(state).phase_records()[phase_id.0 as u128].batch)
                == batch_option_view(old(state).phase_records()[phase_id.0 as u128].batch),
        only_record_changed(old(state).phase_records(), final(state).phase_records(), phase_id.0 as u128),
        final(state).phase() == old(state).phase(),
        final(state).committed() == old(state).committed(),
        final(state).pending() == old(state).pending(),
{
    let _ = state.update_phase(phase_id, move |p: PhaseData| -> (q: PhaseData)
        ensures
            q.decision == Some(decision),
            batch_option_view(q.batch) == batch_option_view(p.batch),
    {
        let mut q = p;
        q.set_decision(decision);
        q
    });
    proof {
        assert(state.phase_records().dom() =~= old(state).phase_records().dom());
    }
    if decision == StateValue::V1 {
        match state.get_phase(&phase_id) {
            Some(phase) => phase.batch,
            None => None,
        }
    } else {
        None
    }
}

/// After a batch was applied to the state machine for `phase_id`: it is no
/// longer pending, and the phase is committed.
pub fn finish_apply(state: &mut EngineState, batch_id: BatchId, phase_id: PhaseId) -> (r: Result<bool, RabiaError>)
    ensures
        !final(state).pending().contains_key(batch_id.0),
        final(state).committed() >= old(state).committed(),
        phase_id.0 <= old(state).phase() ==> (r == Ok::<bool, RabiaError>(phase_id.0 > old(state).committed())
            && final(state).committed() == if phase_id.0 > old(state).committed() { phase_id.0 } else { old(state).committed() }),
        phase_id.0 > old(state).phase() ==> (r is Err && final(state).committed() == old(state).committed()),
        final(state).phase() == old(state).phase(),
{
    state.remove_pending_batch(&batch_id);
    state.commit_phase(phase_id)
}

/// The decision message for `phase_id`, carrying the phase's batch; an
/// internal error when the phase has no record.
pub fn decision_message(state: &EngineState, node_id: NodeId, phase_id: PhaseId, decision: StateValue) -> (r: Result<ProtocolMessage, RabiaError>)
    ensures
        state.phase_records().contains_key(phase_id.0 as u128) <==> r is Ok,
        r matches Ok(m) ==> (m.message_type matches MessageType::Decision(d) && m.from == node_id && m.to is None
            && d.phase_id == phase_id && d.decision == decision
            && batch_option_view(d.batch) == batch_option_view(state.phase_records()[phase_id.0 as u128].batch)),
{
    match state.get_phase(&phase_id) {
        Some(phase) => {
            let batch_id = match phase.batch_id {
                Some(b) => b,
                None => BatchId::new(),
            };
            let decision_msg = DecisionMessage { phase_id, batch_id, decision, batch: phase.batch };
            Ok(ProtocolMessage::decision(node_id, decision_msg))
        },
        None => Err(RabiaError::Internal {
            message: around_number("Phase ", phase_id.0, " not found for decision broadcast"),
        }),
    }
}

/// Handles a decision from a peer: it is recorded (with the batch when the
/// phase had none), and the batch is returned for applying when the decision
/// is V1, a batch came with it, and the phase is later than the last
/// committed one.
pub fn on_decision(state: &mut EngineState, decision: DecisionMessage) -> (r: Option<CommandBatch>)
    ensures
        r is Some <==> (decision.decision == StateValue::V1 && decision.batch is Some
            && decision.phase_id.0 > old(state).committed()),
        r matches Some(b) ==> batch_option_view(decision.batch) == Some(b@),
        only_record_changed(old(state).phase_records(), final(state).phase_records(), decision.phase_id.0 as u128),
        old(state).phase_records().contains_key(decision.phase_id.0 as u128) ==> {
            let before = old(state).phase_records()[decision.phase_id.0 as u128];
            let after = final(state).phase_records()[decision.phase_id.0 as u128];
            &&& after.decision == Some(decision.decision)
            &&& batch_option_view(after.batch) == if before.batch is None {
                batch_option_view(decision.batch)
            } else {
                batch_option_view(before.batch)
            }
        },
        final(state).phase() == old(state).phase(),
        final(state).committed() == old(state).committed(),
        final(state).pending() == old(state).pending(),
{
    let d = decision.decision;
    let carried = crate::messages::copy_batch_option(&decision.batch);
    let ghost carried_view = batch_option_view(decision.batch);
    let _ = state.update_phase(decision.phase_id, move |p: PhaseData| -> (q: PhaseData)
        ensures
            q.decision == Some(d),
            batch_option_view(q.batch) == if p.batch is None { carried_view } else { batch_option_view(p.batch) },
    {
        let mut q = p;
        q.set_decision(d);
        if q.batch.is_none() {
            q.batch = carried;
        }
        q
    });
    proof {
        assert(state.phase_records().dom() =~= old(state).phase_records().dom());
    }
    if decision.decision == StateValue::V1 {
        match decision.batch {
            Some(batch) => {
                if decision.phase_id.0 > state.last_committed_phase().0 {
                    Some(batch)
                } else {
                    None
                }
            },
            None => None,
        }
    } else {
        None
    }
}

/// Whether a synchronization request from a node at `requester_phase` gets
/// a snapshot: when this node is ahead of it.
pub fn sync_needs_snapshot(state: &EngineState, request: &SyncRequestMessage) -> (r: bool)
    ensures
        r == (state.phase() > request.requester_phase.0),
{
    state.current_phase().0 > request.requester_phase.0
}

/// The answer to a synchronization request: this node's phase and version,
/// the snapshot if any, and no batches or phases.
pub fn sync_response(state: &EngineState, snapshot: Option<Snapshot>) -> (r: SyncResponseMessage)
    ensures
        r.responder_phase.0 == state.phase(),
        r.responder_state_version == state.version(),
        r.state_snapshot == snapshot,
        r.pending_batches@.len() == 0,
        r.committed_phases@.len() == 0,
{
    SyncResponseMessage {
        responder_phase: state.current_phase(),
        responder_state_version: state.get_state_version(),
        state_snapshot: snapshot,
        pending_batches: Vec::new(),
        committed_phases: Vec::new(),
    }
}

/// Records a synchronization response from `from`; returns whether enough
/// responses (a quorum) are in to resolve the synchronization.
pub fn on_sync_response(state: &mut EngineState, from: NodeId, response: SyncResponseMessage) -> (r: bool)
    ensures
        final(state).responses() == old(state).responses().insert(from.0, response),
        r == (final(state).responses().len() >= old(state).required_quorum()),
        final(state).phase() == old(state).phase(),
        final(state).committed() == old(state).committed(),
{
    state.add_sync_response(from, response);
    state.sync_response_count() >= state.quorum_size()
}

/// The index of the response with the latest phase (the last such one), if
/// any.
pub fn latest_response(responses: &Vec<(NodeId, SyncResponseMessage)>) -> (r: Option<usize>)
    ensures
        responses@.len() == 0 <==> r is None,
        r matches Some(i) ==> (i < responses@.len()
            && (forall|j: int| 0 <= j < responses@.len() ==>
                #[trigger] responses@[j].1.responder_phase.0 <= responses@[i as int].1.responder_phase.0)
            && (forall|j: int| i < j < responses@.len() ==>
                #[trigger] responses@[j].1.responder_phase.0 < responses@[i as int].1.responder_phase.0)),
{
    if responses.len() == 0 {
        return None;
    }
    let mut best: usize = 0;
    let mut i: usize = 1;
    while i < responses.len()
        invariant
            1 <= i <= responses@.len(),
            best < i,
            forall|j: int| 0 <= j < i ==> #[trigger] responses@[j].1.responder_phase.0 <= responses@[best as int].1.responder_phase.0,
            forall|j: int| best < j < i ==> #[trigger] responses@[j].1.responder_phase.0 < responses@[best as int].1.responder_phase.0,
        decreases responses@.len() - i,
    {
        if responses[i].1.responder_phase.0 >= responses[best].1.responder_phase.0 {
            best = i;
        }
        i = i + 1;
    }
    Some(best)
}

/// Resolves a synchronization: when the latest response is ahead of this
/// node, the node moves to its phase and its snapshot (if any) is returned
/// for restoring. The responses are then forgotten.
pub fn resolve_sync(state: &mut EngineState, responses: Vec<(NodeId, SyncResponseMessage)>) -> (r: Option<Snapshot>)
    ensures
        final(state).responses() == Map::<u128, SyncResponseMessage>::empty(),
        final(state).committed() == old(state).committed(),
        final(state).phase() >= old(state).phase(),
        forall|j: int| 0 <= j < responses@.len() ==> #[trigger] responses@[j].1.responder_phase.0 <= final(state).phase(),
        final(state).phase() == old(state).phase() ==> r is None,
        final(state).phase() > old(state).phase() ==> (exists|j: int| 0 <= j < responses@.len()
            && #[trigger] responses@[j].1.responder_phase.0 == final(state).phase()
            && r == responses@[j].1.state_snapshot
            && forall|k: int| j < k < responses@.len() ==> #[trigger] responses@[k].1.responder_phase.0 < final(state).phase()),
{
    let mut responses = responses;
    let mut snapshot: Option<Snapshot> = None;
    match latest_response(&responses) {
        Some(i) => {
            let latest_phase = responses[i].1.responder_phase;
            if latest_phase.0 > state.current_phase().0 {
                state.set_current_phase(latest_phase);
                let ghost before = responses@;
                let (_, latest) = responses.remove(i);
                snapshot = latest.state_snapshot;
                proof {
                    assert(before[i as int].1.responder_phase.0 == state.phase());
                    assert(snapshot == before[i as int].1.state_snapshot);
                }
                state.clear_sync_responses();
                return snapshot;
            }
        },
        None => {},
    }
    state.clear_sync_responses();
    snapshot
}

/// Handles an announced batch: it becomes pending under its originator.
pub fn on_new_batch(state: &mut EngineState, new_batch: NewBatchMessage) -> (r: BatchId)
    ensures
        r == new_batch.batch.id,
        final(state).pending().contains_key(r.0),
        final(state).pending()[r.0].originator == new_batch.originator,
        final(state).phase() == old(state).phase(),
        final(state).committed() == old(state).committed(),
{
    state.add_pending_batch(new_batch.batch, new_batch.originator)
}

/// The heartbeat this node broadcasts: its phases and whether it is active.
pub fn heartbeat_message(state: &EngineState, node_id: NodeId) -> (r: ProtocolMessage)
    ensures
        r.from == node_id,
        r.to is None,
        (r.message_type matches MessageType::HeartBeat(h)
            && h.current_phase.0 == state.phase()
            && h.last_committed_phase.0 == state.committed()
            && h.active == state.active()),
{
    let heartbeat = HeartBeatMessage {
        current_phase: state.current_phase(),
        last_committed_phase: state.last_committed_phase(),
        active: state.is_active(),
    };
    ProtocolMessage::new(node_id, None, MessageType::HeartBeat(heartbeat))
}

/// The synchronization request this node sends, and the active nodes other
/// than itself that it goes to.
pub fn sync_request_plan(state: &EngineState, node_id: NodeId) -> (r: (SyncRequestMessage, Vec<NodeId>))
    ensures
        r.0.requester_phase.0 == state.phase(),
        r.0.requester_state_version == state.version(),
        r.1@.to_set() == state.active_set().remove(node_id),
{
    let request = SyncRequestMessage {
        requester_phase: state.current_phase(),
        requester_state_version: state.get_state_version(),
    };
    let mut active = state.get_active_nodes();
    active.remove(node_id);
    (request, active.to_vec())
}

} // verus!
