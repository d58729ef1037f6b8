use std::time::Duration;
use rabia::batching::{BatchConfig, CommandBatcher};
use rabia::error::RabiaError;
use rabia::health::{HealthCheckOutcome, HealthMonitor, HealthStatus};
use rabia::leader_error::LeaderError;
use rabia::leadership::{LeaderConfig, LeaderManager, LeaderState};
use rabia::messages::{HeartBeatMessage, MessageType, ProtocolMessage};
use rabia::topology::{NodeAddress, NodeInfo, NodeRole, TopologyManager};
use rabia::types::{Command, CommandBatch, NodeId, PhaseId};
use rabia::validation::Validator;

#[test]
fn three_failures_make_a_node_unhealthy() {
    let mut m = HealthMonitor::new().unwrap();
    let n = NodeId::from(1u64);
    m.register_node(n).unwrap();
    let fast = Duration::from_millis(5);
    for t in 0..3u64 {
        m.update_node_health(n, HealthCheckOutcome::Failure { reason: "down".to_string() }, fast, t).unwrap();
    }
    let h = m.get_node_health(n).unwrap();
    assert!(matches!(h.status, HealthStatus::Unhealthy { ref reason, .. } if reason == "down"));
    assert_eq!(h.consecutive_failures, 3);
    assert_eq!(h.consecutive_successes, 0);
    assert_eq!(h.total_checks, 3);
    let stats = m.get_stats();
    assert_eq!(stats.nodes_marked_unhealthy, 1);
    assert_eq!(stats.failed_checks, 3);
    assert_eq!(stats.total_checks, 3);
}

#[test]
fn a_heartbeat_ahead_of_its_phase_names_both_phases() {
    let bad = ProtocolMessage::new(
        NodeId::new(),
        None,
        MessageType::HeartBeat(HeartBeatMessage {
            current_phase: PhaseId::new(1),
            last_committed_phase: PhaseId::new(2),
            active: true,
        }),
    );
    assert!(matches!(bad.validate(), Err(RabiaError::InvalidStateTransition { ref from, ref to })
        if from == "committed=2" && to == "current=1"));
    let good = ProtocolMessage::new(
        NodeId::new(),
        None,
        MessageType::HeartBeat(HeartBeatMessage {
            current_phase: PhaseId::new(2),
            last_committed_phase: PhaseId::new(2),
            active: true,
        }),
    );
    assert!(good.validate().is_ok());
}

#[test]
fn health_reports_move_the_topology_version_only_on_change() {
    let mut m = TopologyManager::new().unwrap();
    let id = NodeId::from(7u64);
    m.add_node(NodeInfo {
        node_id: id,
        address: NodeAddress::V4 { ipv4: 0x7f00_0001, port: 8000 },
        role: NodeRole::Participant,
        metadata: Vec::new(),
        joined_at: 0,
        last_seen: 0,
        version: "0.2.0".to_string(),
    })
    .unwrap();
    let v0 = m.get_topology().version;
    m.update_node_health(id, true).unwrap();
    assert_eq!(m.get_topology().version, v0);
    m.update_node_health(id, false).unwrap();
    assert_eq!(m.get_topology().version, v0 + 1);
    assert!(!m.get_topology().healthy_nodes.contains(&id));
    m.update_node_health(id, true).unwrap();
    assert_eq!(m.get_topology().version, v0 + 2);
    assert_eq!(m.get_stats().health_checks, 3);
    assert_eq!(m.cluster_size(), 1);
}

#[test]
fn a_full_batch_is_counted() {
    let mut b = CommandBatcher::new(BatchConfig {
        max_batch_size: 3,
        max_batch_delay: Duration::from_millis(100),
        buffer_capacity: 10,
        adaptive: false,
    });
    let c1 = Command::new("SET key1 value1");
    let c2 = Command::new("SET key2 value2");
    let c3 = Command::new("SET key3 value3");
    let ids = [c1.id, c2.id, c3.id];
    assert!(b.add_command(c1).unwrap().is_none());
    assert!(b.add_command(c2).unwrap().is_none());
    let batch = b.add_command(c3).unwrap().unwrap();
    let got: Vec<u128> = batch.commands.iter().map(|c| c.id).collect();
    assert_eq!(got, ids.to_vec());
    assert_eq!(b.buffer_len(), 0);
    assert_eq!(b.stats().total_batches, 1);
    assert_eq!(b.stats().total_commands, 3);
}

#[test]
fn an_election_without_healthy_nodes_fails_in_progress() {
    let mut m = LeaderManager::new(LeaderConfig::default()).unwrap();
    assert_eq!(m.get_stats().elections_started, 0);
    assert!(matches!(m.trigger_election(), Err(LeaderError::ElectionFailed { .. })));
    assert!(matches!(m.get_state(), LeaderState::ElectionInProgress { term: 1, .. }));
    assert_eq!(m.get_stats().elections_started, 1);
    assert_eq!(m.take_notifications().len(), 1);
}

#[test]
fn a_batch_made_at_a_given_time_keeps_it() {
    let b = CommandBatch::new_at(vec![Command::new("SET a 1"), Command::new("SET b 2")], 1234);
    assert_eq!(b.timestamp, 1234);
    assert_eq!(b.commands.len(), 2);
    let other = CommandBatch::new_at(Vec::new(), 1234);
    assert_ne!(b.id, other.id);
    assert_eq!((b.id.0 >> 76) & 0xf, 4);
}
