use std::time::Duration;
use rabia::types::{Command, CommandBatch, NodeId, PhaseId, StateValue};
use rabia::votes::VoteMap;
use rabia::node_set::NodeSet;
use rabia::network::{broadcast_targets, ClusterConfig, NetworkEvent, NetworkMonitor};
use rabia::engine_state::EngineState;
use rabia::messages::{MessageType, PhaseData};
use rabia::protocol::{
    begin_decision, begin_proposal, determine_round2_vote, finish_apply, on_propose, on_vote_round1,
    on_vote_round2, proceed_to_round2, randomized_vote, round1_coin_percent,
};
use rabia::config::RabiaConfig;
use rabia::error::RabiaError;

fn nodes(ids: &[u32]) -> NodeSet {
    let mut s = NodeSet::new();
    for i in ids {
        s.insert(NodeId::from(*i));
    }
    s
}

#[test]
fn a_value_needs_a_quorum_of_votes() {
    let mut votes = VoteMap::new();
    votes.insert(NodeId::from(1u32), StateValue::V1);
    votes.insert(NodeId::from(2u32), StateValue::V0);
    assert_eq!(votes.majority(2), None);
    votes.insert(NodeId::from(3u32), StateValue::V1);
    assert_eq!(votes.majority(2), Some(StateValue::V1));
    votes.insert(NodeId::from(3u32), StateValue::V0);
    assert_eq!(votes.len(), 3);
    assert_eq!(votes.count(StateValue::V0), 2);
    assert_eq!(votes.majority(2), Some(StateValue::V0));
}

#[test]
fn quorum_is_a_majority_of_the_cluster() {
    let config = ClusterConfig::new(NodeId::from(1u32), nodes(&[1, 2, 3, 4, 5]));
    assert_eq!(config.quorum_size, 3);
    assert!(config.has_quorum(&nodes(&[1, 2, 3])));
    assert!(!config.has_quorum(&nodes(&[4, 5])));
    assert!(config.is_majority(3));
    assert!(!config.is_majority(2));
    assert_eq!(config.total_nodes(), 5);
}

#[test]
fn the_monitor_reports_changes_and_quorum() {
    let config = ClusterConfig::new(NodeId::from(1u32), nodes(&[1, 2, 3]));
    let mut monitor = NetworkMonitor::new(config);
    assert!(monitor.has_quorum());
    let events = monitor.update_connected_nodes(nodes(&[1, 2]));
    assert!(events.iter().any(|e| matches!(e, NetworkEvent::NodeDisconnected(_))));
    assert!(monitor.has_quorum());
    let events = monitor.update_connected_nodes(nodes(&[1]));
    assert!(events.iter().any(|e| matches!(e, NetworkEvent::QuorumLost)));
    assert!(!monitor.has_quorum());
    let events = monitor.update_connected_nodes(nodes(&[1, 4]));
    assert!(events.iter().any(|e| matches!(e, NetworkEvent::NodeConnected(_))));
    assert!(events.iter().any(|e| matches!(e, NetworkEvent::QuorumRestored(_))));
    assert!(matches!(events.last(), Some(NetworkEvent::NetworkPartition(_))));
    assert_eq!(monitor.quorum_size(), 2);
}

#[test]
fn broadcasts_skip_the_sender_and_the_excluded_node() {
    let connected = vec![NodeId::from(1u32), NodeId::from(2u32), NodeId::from(3u32)];
    let targets = broadcast_targets(&connected, NodeId::from(1u32), Some(NodeId::from(3u32)));
    assert_eq!(targets, vec![NodeId::from(2u32)]);
}

#[test]
fn committed_phases_only_move_forward() {
    let mut state = EngineState::new(2);
    assert_eq!(state.advance_phase(), PhaseId::new(1));
    assert_eq!(state.advance_phase(), PhaseId::new(2));
    assert_eq!(state.commit_phase(PhaseId::new(2)).unwrap(), true);
    assert_eq!(state.commit_phase(PhaseId::new(1)).unwrap(), false);
    assert_eq!(state.last_committed_phase(), PhaseId::new(2));
    match state.commit_phase(PhaseId::new(3)) {
        Err(RabiaError::InvalidStateTransition { from, to }) => {
            assert_eq!(from, "current_phase=2");
            assert_eq!(to, "commit_phase=3");
        }
        other => panic!("unexpected {:?}", other),
    }
}

#[test]
fn round_one_and_two_votes() {
    assert_eq!(round1_coin_percent(StateValue::V1), 60);
    assert_eq!(randomized_vote(StateValue::V0, true), StateValue::V0);
    assert_eq!(randomized_vote(StateValue::V1, false), StateValue::VQuestion);
    let mut votes = VoteMap::new();
    votes.insert(NodeId::from(1u32), StateValue::V1);
    votes.insert(NodeId::from(2u32), StateValue::V1);
    votes.insert(NodeId::from(3u32), StateValue::V0);
    assert_eq!(determine_round2_vote(StateValue::V0, &votes, true), StateValue::V0);
    assert_eq!(determine_round2_vote(StateValue::VQuestion, &votes, true), StateValue::V1);
    assert_eq!(determine_round2_vote(StateValue::VQuestion, &votes, false), StateValue::V0);
}

#[test]
fn a_three_node_phase_decides_and_commits() {
    let me = NodeId::from(1u32);
    let mut state = EngineState::new(2);
    state.get_or_create_phase(PhaseId::new(1));
    let batch = CommandBatch::new(vec![Command::new("SET a 1")]);
    let batch_id = batch.id;
    let proposal = begin_proposal(&mut state, me, batch, false).unwrap();
    let propose = match proposal.message_type {
        MessageType::Propose(p) => p,
        _ => panic!("expected a proposal"),
    };
    assert_eq!(propose.value, StateValue::V1);
    let phase = propose.phase_id;
    assert_eq!(phase, PhaseId::new(1));

    let mut peer = EngineState::new(2);
    peer.advance_phase();
    peer.get_or_create_phase(phase);
    let vote_msg = on_propose(&mut peer, NodeId::from(2u32), me, propose, true).unwrap();
    let vote = match vote_msg.message_type {
        MessageType::VoteRound1(v) => v,
        _ => panic!("expected a vote"),
    };
    assert_eq!(vote.vote, StateValue::V1);

    assert!(on_vote_round1(&mut state, NodeId::from(2u32), vote).is_none());
    let mut own = vote;
    own.voter_id = me;
    let (result, votes) = on_vote_round1(&mut state, me, own).unwrap();
    assert_eq!(result, StateValue::V1);

    let round2 = proceed_to_round2(&mut state, me, phase, result, votes, true);
    let r2 = match round2.message_type {
        MessageType::VoteRound2(v) => v,
        _ => panic!("expected a round 2 vote"),
    };
    assert_eq!(r2.vote, StateValue::V1);
    assert!(on_vote_round2(&mut state, me, r2.clone()).is_none());
    let mut other = r2;
    other.voter_id = NodeId::from(3u32);
    assert_eq!(on_vote_round2(&mut state, NodeId::from(3u32), other), Some(StateValue::V1));

    let to_apply = begin_decision(&mut state, phase, StateValue::V1).unwrap();
    assert_eq!(to_apply.id, batch_id);
    assert!(finish_apply(&mut state, batch_id, phase).unwrap());
    assert_eq!(state.last_committed_phase(), phase);
    assert!(state.get_pending_batch(&batch_id).is_none());
}

#[test]
fn phase_records_count_votes() {
    let mut data = PhaseData::new(PhaseId::new(4));
    data.add_round1_vote(NodeId::from(1u32), StateValue::V0);
    data.add_round1_vote(NodeId::from(2u32), StateValue::V0);
    data.add_round2_vote(NodeId::from(1u32), StateValue::V1);
    assert_eq!(data.total_votes(), 2);
    assert_eq!(data.has_round1_majority(2), Some(StateValue::V0));
    assert_eq!(data.has_round2_majority(2), None);
    data.set_decision(StateValue::V0);
    assert_eq!(data.decision, Some(StateValue::V0));
}

#[test]
fn configuration_builders_set_one_field() {
    let config = RabiaConfig::new()
        .with_phase_timeout(Duration::from_millis(250))
        .with_max_batch_size(7)
        .with_randomization_seed(42);
    assert_eq!(config.phase_timeout, Duration::from_millis(250));
    assert_eq!(config.max_batch_size, 7);
    assert_eq!(config.randomization_seed, Some(42));
}

fn sync_response(phase: u64, version: u64) -> rabia::messages::SyncResponseMessage {
    rabia::messages::SyncResponseMessage {
        responder_phase: PhaseId::new(phase),
        responder_state_version: version,
        state_snapshot: Some(rabia::state_machine::Snapshot::new(version, vec![phase as u8])),
        pending_batches: Vec::new(),
        committed_phases: Vec::new(),
    }
}

#[test]
fn sync_moves_to_the_latest_responder_and_hands_back_its_snapshot() {
    let mut state = EngineState::new(2);
    state.advance_phase();
    let responses = vec![
        (NodeId::from(2u32), sync_response(4, 40)),
        (NodeId::from(3u32), sync_response(9, 90)),
        (NodeId::from(4u32), sync_response(6, 60)),
    ];
    let snapshot = rabia::protocol::resolve_sync(&mut state, responses).unwrap();
    assert_eq!(state.current_phase(), PhaseId::new(9));
    assert_eq!(snapshot.version, 90);
    assert_eq!(snapshot.data, vec![9u8]);
}

#[test]
fn sync_from_peers_that_are_behind_changes_nothing() {
    let mut state = EngineState::new(2);
    for _ in 0..5 {
        state.advance_phase();
    }
    let responses = vec![(NodeId::from(2u32), sync_response(3, 30))];
    assert!(rabia::protocol::resolve_sync(&mut state, responses).is_none());
    assert_eq!(state.current_phase(), PhaseId::new(5));
}

#[test]
fn a_v0_decision_applies_nothing() {
    let me = NodeId::from(1u32);
    let mut state = EngineState::new(2);
    state.get_or_create_phase(PhaseId::new(1));
    let batch = CommandBatch::new(vec![Command::new("SET a 1")]);
    let proposal = begin_proposal(&mut state, me, batch, false).unwrap();
    let phase = match proposal.message_type {
        MessageType::Propose(p) => p.phase_id,
        _ => panic!("expected a proposal"),
    };
    assert!(begin_decision(&mut state, phase, StateValue::V0).is_none());
    assert_eq!(state.get_phase(&phase).unwrap().decision, Some(StateValue::V0));
    assert!(begin_decision(&mut state, phase, StateValue::V1).is_some());
}

#[test]
fn round_one_votes_accumulate_until_a_quorum() {
    let mut state = EngineState::new(2);
    let phase = PhaseId::new(1);
    state.get_or_create_phase(phase);
    let batch_id = rabia::types::BatchId::new();
    let vote = |voter: u32, v: StateValue| rabia::messages::VoteRound1Message {
        phase_id: phase,
        batch_id,
        vote: v,
        voter_id: NodeId::from(voter),
    };
    assert!(on_vote_round1(&mut state, NodeId::from(1u32), vote(1, StateValue::V1)).is_none());
    assert!(on_vote_round1(&mut state, NodeId::from(2u32), vote(2, StateValue::V0)).is_none());
    let (value, votes) = on_vote_round1(&mut state, NodeId::from(3u32), vote(3, StateValue::V1)).unwrap();
    assert_eq!(value, StateValue::V1);
    assert_eq!(votes.len(), 3);
    let record = state.get_phase(&phase).unwrap();
    assert_eq!(record.round1_votes.get(NodeId::from(2u32)), Some(StateValue::V0));
    assert_eq!(record.round2_votes.len(), 0);
}

#[test]
fn round_two_votes_accumulate_and_keep_the_round_one_votes() {
    let mut state = EngineState::new(2);
    let phase = PhaseId::new(1);
    state.get_or_create_phase(phase);
    let batch_id = rabia::types::BatchId::new();
    let r1 = rabia::messages::VoteRound1Message { phase_id: phase, batch_id, vote: StateValue::V0, voter_id: NodeId::from(4u32) };
    on_vote_round1(&mut state, NodeId::from(4u32), r1);
    let vote = |voter: u32| rabia::messages::VoteRound2Message {
        phase_id: phase,
        batch_id,
        vote: StateValue::V0,
        voter_id: NodeId::from(voter),
        round1_votes: VoteMap::new(),
    };
    assert_eq!(on_vote_round2(&mut state, NodeId::from(1u32), vote(1)), None);
    assert_eq!(on_vote_round2(&mut state, NodeId::from(2u32), vote(2)), Some(StateValue::V0));
    let record = state.get_phase(&phase).unwrap();
    assert_eq!(record.round2_votes.len(), 2);
    assert_eq!(record.round1_votes.get(NodeId::from(4u32)), Some(StateValue::V0));
}

#[test]
fn a_received_proposal_is_recorded_without_overwriting() {
    let mut state = EngineState::new(2);
    let phase = PhaseId::new(7);
    state.get_or_create_phase(phase);
    let first = CommandBatch::new(vec![Command::new("SET a 1")]);
    let second = CommandBatch::new(vec![Command::new("SET b 2")]);
    let first_id = first.id;
    let second_id = second.id;
    let propose = |b: CommandBatch, v: StateValue| rabia::messages::ProposeMessage {
        phase_id: phase,
        batch_id: b.id,
        value: v,
        batch: Some(b),
    };
    on_propose(&mut state, NodeId::from(1u32), NodeId::from(2u32), propose(first, StateValue::V1), false).unwrap();
    on_propose(&mut state, NodeId::from(1u32), NodeId::from(3u32), propose(second, StateValue::V0), false).unwrap();
    let record = state.get_phase(&phase).unwrap();
    assert_eq!(record.batch_id, Some(second_id));
    assert_eq!(record.proposed_value, Some(StateValue::V1));
    assert_eq!(record.batch.unwrap().id, first_id);
    assert_eq!(state.get_pending_batch(&first_id).unwrap().originator, NodeId::from(2u32));
    assert_eq!(state.get_pending_batch(&second_id).unwrap().originator, NodeId::from(3u32));
}
