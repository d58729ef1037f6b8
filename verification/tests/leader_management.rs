use std::time::Duration;
use rabia::types::{ConsensusState, NodeId};
use rabia::topology::{NodeAddress, NodeInfo, NodeRole, TopologyConfig, TopologyManager};
use rabia::health::{HealthCheckOutcome, HealthConfig, HealthMonitor, HealthStatus};
use rabia::leadership::{determine_election_winner, LeaderConfig, LeaderManager, LeaderState};
use rabia::leader_notifications::{LeaderNotification, LeadershipChange, NotificationFilter};
use rabia::leader_error::LeaderError;

fn create_test_node_info(id: u64, port: u16, now: u64) -> NodeInfo {
    NodeInfo {
        node_id: NodeId::from(id),
        address: NodeAddress::V4 { ipv4: 0x7f00_0001, port },
        role: NodeRole::Participant,
        metadata: Vec::new(),
        joined_at: now,
        last_seen: now,
        version: "0.2.0".to_string(),
    }
}

#[test]
fn test_topology_manager_creation() {
    let manager = TopologyManager::new();
    assert!(manager.is_ok());
}

#[test]
fn test_add_node() {
    let mut manager = TopologyManager::new().unwrap();
    let node_info = create_test_node_info(1, 8001, 0);
    let node_id = node_info.node_id;

    let result = manager.add_node(node_info.clone());
    assert!(result.is_ok());

    let topology = manager.get_topology();
    assert_eq!(topology.nodes.len(), 1);
    assert!(topology.healthy_nodes.contains(&node_id));
}

#[test]
fn test_remove_node() {
    let mut manager = TopologyManager::new().unwrap();
    let node_info = create_test_node_info(1, 8001, 0);
    let node_id = node_info.node_id;

    manager.add_node(node_info).unwrap();
    manager.remove_node(node_id).unwrap();

    let topology = manager.get_topology();
    assert_eq!(topology.nodes.len(), 0);
    assert!(!topology.healthy_nodes.contains(&node_id));
}

#[test]
fn test_health_updates() {
    let mut manager = TopologyManager::new().unwrap();
    let node_info = create_test_node_info(1, 8001, 0);
    let node_id = node_info.node_id;

    manager.add_node(node_info).unwrap();

    manager.update_node_health(node_id, false).unwrap();
    let topology = manager.get_topology();
    assert!(!topology.healthy_nodes.contains(&node_id));

    manager.update_node_health(node_id, true).unwrap();
    let topology = manager.get_topology();
    assert!(topology.healthy_nodes.contains(&node_id));
}

#[test]
fn test_quorum_check() {
    let config = TopologyConfig {
        min_quorum_size: 3,
        ..Default::default()
    };
    let mut manager = TopologyManager::with_config(config).unwrap();

    assert!(!manager.has_quorum());

    for i in 1..=3u64 {
        let node_info = create_test_node_info(i, 8000 + i as u16, 0);
        manager.add_node(node_info).unwrap();
    }

    assert!(manager.has_quorum());
}

#[test]
fn topology_limits_and_versions() {
    let config = TopologyConfig { max_nodes: 2, min_quorum_size: 2, ..Default::default() };
    let mut manager = TopologyManager::with_config(config).unwrap();
    manager.add_node(create_test_node_info(1, 1, 0)).unwrap();
    manager.add_node(create_test_node_info(2, 2, 0)).unwrap();
    match manager.add_node(create_test_node_info(3, 3, 0)) {
        Err(LeaderError::TopologyError { reason }) => assert_eq!(reason, "Maximum nodes limit reached: 2"),
        other => panic!("unexpected {:?}", other),
    }
    assert_eq!(manager.get_topology().version, 2);
    manager.update_node_health(NodeId::from(1u64), false).unwrap();
    let stats = manager.get_stats();
    assert_eq!(stats.quorum_losses, 1);
    assert_eq!(stats.nodes_added, 2);
    assert_eq!(manager.healthy_node_count(), 1);
    assert_eq!(manager.cluster_size(), 2);
    assert_eq!(manager.get_all_nodes().len(), 2);
    assert!(manager.get_node_info(NodeId::from(2u64)).is_some());
    manager.update_node_health(NodeId::from(9u64), true).unwrap();
    assert_eq!(manager.healthy_node_count(), 1);
}

#[test]
fn stale_nodes_are_marked_unhealthy() {
    let mut manager = TopologyManager::new().unwrap();
    manager.add_node(create_test_node_info(1, 1, 1_000)).unwrap();
    manager.add_node(create_test_node_info(2, 2, 40_000)).unwrap();
    let stale = manager.timed_out_nodes(40_000);
    assert_eq!(stale, vec![NodeId::from(1u64)]);
    manager.health_check_at(40_000).unwrap();
    let healthy = manager.get_healthy_nodes().unwrap();
    assert_eq!(healthy, vec![NodeId::from(2u64)]);
}

#[test]
fn test_health_monitor_creation() {
    let monitor = HealthMonitor::new();
    assert!(monitor.is_ok());
}

#[test]
fn test_register_node() {
    let mut monitor = HealthMonitor::new().unwrap();
    let node_id = NodeId::from(1);

    let result = monitor.register_node(node_id);
    assert!(result.is_ok());

    let health = monitor.get_node_health(node_id);
    assert!(health.is_some());
}

#[test]
fn test_unregister_node() {
    let mut monitor = HealthMonitor::new().unwrap();
    let node_id = NodeId::from(1);

    monitor.register_node(node_id).unwrap();
    monitor.unregister_node(node_id).unwrap();

    let health = monitor.get_node_health(node_id);
    assert!(health.is_none());
}

#[test]
fn health_follows_consecutive_outcomes() {
    let mut monitor = HealthMonitor::new().unwrap();
    let node = NodeId::from(7u32);
    monitor.register_node_at(node, 0).unwrap();
    let fast = Duration::from_millis(5);
    monitor.update_node_health(node, HealthCheckOutcome::Success, fast, 1).unwrap();
    assert_eq!(monitor.node_status(node), HealthStatus::Unknown);
    monitor.update_node_health(node, HealthCheckOutcome::Success, fast, 2).unwrap();
    assert_eq!(monitor.node_status(node), HealthStatus::Healthy);
    assert!(monitor.is_node_healthy(node));
    assert_eq!(monitor.get_stats().nodes_recovered, 1);

    for t in 3..5 {
        monitor.update_node_health(node, HealthCheckOutcome::Failure { reason: "down".to_string() }, fast, t).unwrap();
        assert_eq!(monitor.node_status(node), HealthStatus::Healthy);
    }
    monitor.update_node_health(node, HealthCheckOutcome::Failure { reason: "down".to_string() }, fast, 5).unwrap();
    assert_eq!(monitor.node_status(node), HealthStatus::Unhealthy { reason: "down".to_string(), since: 5 });
    assert_eq!(monitor.get_unhealthy_nodes(), vec![node]);
    assert!(monitor.get_healthy_nodes().is_empty());

    let slow = Duration::from_millis(1500);
    monitor.update_node_health(node, HealthCheckOutcome::Success, slow, 6).unwrap();
    match monitor.node_status(node) {
        HealthStatus::Degraded { reason, severity } => {
            assert_eq!(reason, "High response time: 1.5s");
            assert_eq!(severity, 50);
        }
        other => panic!("unexpected {:?}", other),
    }
    let stats = monitor.get_stats();
    assert_eq!(stats.total_checks, 6);
    assert_eq!(stats.successful_checks, 3);
    assert_eq!(stats.failed_checks, 3);
    assert_eq!(stats.nodes_marked_unhealthy, 1);
}

#[test]
fn timeouts_mark_unhealthy_without_counting_a_marking() {
    let config = HealthConfig { failure_threshold: 1, ..HealthConfig::default() };
    let mut monitor = HealthMonitor::with_config(config).unwrap();
    let node = NodeId::from(3u32);
    monitor.register_node_at(node, 0).unwrap();
    monitor.update_node_health(node, HealthCheckOutcome::Timeout, Duration::from_millis(1), 9).unwrap();
    assert_eq!(monitor.node_status(node), HealthStatus::Unhealthy { reason: "Health check timeout".to_string(), since: 9 });
    let stats = monitor.get_stats();
    assert_eq!(stats.timeouts, 1);
    assert_eq!(stats.nodes_marked_unhealthy, 0);
    monitor.update_node_health(NodeId::from(99u32), HealthCheckOutcome::Success, Duration::from_millis(1), 9).unwrap();
    assert_eq!(monitor.get_stats().total_checks, 2);
    assert_eq!(monitor.get_all_health().len(), 1);
}

#[test]
fn test_leader_manager_creation() {
    let config = LeaderConfig::default();
    let manager = LeaderManager::new(config);
    assert!(manager.is_ok());
}

#[test]
fn test_initial_state() {
    let config = LeaderConfig::default();
    let manager = LeaderManager::new(config).unwrap();

    let state = manager.get_state();
    assert_eq!(state, LeaderState::NoLeader);
    assert!(!manager.is_leader());
}

#[test]
fn test_election_trigger() {
    let config = LeaderConfig::default();
    let mut manager = LeaderManager::new(config).unwrap();

    let _ = manager.trigger_election();

    let state = manager.get_state();
    assert!(matches!(state, LeaderState::ElectionInProgress { .. }));
}

#[test]
fn an_election_without_enough_healthy_nodes_fails() {
    let mut manager = LeaderManager::new(LeaderConfig::default()).unwrap();
    match manager.trigger_election_at(7, 100) {
        Err(LeaderError::ElectionFailed { reason }) => assert_eq!(reason, "Insufficient healthy nodes: 0 < 1"),
        other => panic!("unexpected {:?}", other),
    }
    assert_eq!(manager.get_state(), LeaderState::ElectionInProgress { election_id: 7, started_at: 100, term: 1 });
    assert!(manager.election_due(5_101));
    assert!(!manager.election_due(5_100));
}

#[test]
fn the_node_with_the_highest_priority_and_smallest_id_wins() {
    let mut manager = LeaderManager::new(LeaderConfig::default()).unwrap();
    let me = manager.node_id();
    let other = NodeId(0);
    manager.topology_mut().add_node(NodeInfo { node_id: other, ..create_test_node_info(1, 1, 0) }).unwrap();
    manager.topology_mut().add_node(NodeInfo { node_id: me, ..create_test_node_info(2, 2, 0) }).unwrap();
    manager.trigger_election_at(1, 10).unwrap();
    assert_eq!(manager.get_state(), LeaderState::Follower { leader_id: other, last_heartbeat: 10, term: 1 });
    assert_eq!(manager.get_leader(), Some(other));
    assert!(manager.election_due(3_011));
    assert!(!manager.heartbeat_tick(20));

    let config = LeaderConfig { leadership_priority: 200, ..LeaderConfig::default() };
    let mut manager = LeaderManager::new(config).unwrap();
    let me = manager.node_id();
    manager.topology_mut().add_node(NodeInfo { node_id: NodeId(0), ..create_test_node_info(1, 1, 0) }).unwrap();
    manager.topology_mut().add_node(NodeInfo { node_id: me, ..create_test_node_info(2, 2, 0) }).unwrap();
    manager.trigger_election_at(1, 10).unwrap();
    assert_eq!(manager.get_state(), LeaderState::Leader { since: 10, term: 1 });
    assert!(manager.is_leader());
    assert!(manager.heartbeat_tick(20));
    manager.step_down_at(30).unwrap();
    assert_eq!(manager.get_state(), LeaderState::NoLeader);
    let notes = manager.take_notifications();
    assert_eq!(notes.len(), 4);
    assert!(matches!(notes[0], LeaderNotification::Leadership(LeadershipChange::ElectionStarted { term: 1, .. })));
    assert!(matches!(notes[1], LeaderNotification::Leadership(LeadershipChange::LeaderElected { term: 1, .. })));
    assert!(matches!(notes[2], LeaderNotification::Leadership(LeadershipChange::LeaderHeartbeat { term: 1, .. })));
    assert!(matches!(notes[3], LeaderNotification::Leadership(LeadershipChange::LeaderSteppedDown { term: 1, .. })));
    let stats = manager.get_stats();
    assert_eq!(stats.elections_won, 1);
    assert_eq!(stats.leadership_changes, 2);
}

#[test]
fn election_winner_examples() {
    let me = NodeId(5);
    let nodes = [NodeId(9), NodeId(5), NodeId(3)];
    assert_eq!(determine_election_winner(&nodes, me, 100), NodeId(3));
    assert_eq!(determine_election_winner(&nodes, me, 101), NodeId(5));
    assert_eq!(determine_election_winner(&nodes, me, 0), NodeId(3));
    assert_eq!(determine_election_winner(&[me], me, 0), me);
}

#[test]
fn consensus_states_are_recorded_and_announced() {
    let mut manager = LeaderManager::new(LeaderConfig::default()).unwrap();
    manager.update_consensus_state(NodeId(1), ConsensusState::Active).unwrap();
    manager.update_consensus_state(NodeId(1), ConsensusState::Idle).unwrap();
    assert_eq!(manager.get_consensus_states(), vec![(NodeId(1), ConsensusState::Idle)]);
    assert_eq!(manager.take_notifications().len(), 2);
}

#[test]
fn leader_notification_filters() {
    let node = NodeId(4);
    let gained = LeaderNotification::leadership_gained(node, 1, 0);
    let joined = LeaderNotification::node_joined(NodeId(5), NodeAddress::V4 { ipv4: 1, port: 2 }, 0);
    let consensus = LeaderNotification::consensus_appeared(node, ConsensusState::Active, 0);
    assert!(NotificationFilter::Leadership.matches(&gained));
    assert!(!NotificationFilter::Topology.matches(&gained));
    assert!(NotificationFilter::Topology.matches(&joined));
    assert!(NotificationFilter::Consensus.matches(&consensus));
    assert!(NotificationFilter::All.matches(&joined));
    assert!(NotificationFilter::Node(node).matches(&gained));
    assert!(NotificationFilter::Node(node).matches(&consensus));
    assert!(!NotificationFilter::Node(node).matches(&joined));
    let started = LeaderNotification::election_started(1, 1, 0);
    assert!(!started.involves_node(node));
    let quorum = LeaderNotification::quorum_changed(true, 3, 2, 0);
    assert!(!NotificationFilter::Node(node).matches(&quorum));
}

#[test]
fn leader_error_texts() {
    let e = LeaderError::TransitionFailed { from: "a".to_string(), to: "b".to_string(), reason: "c".to_string() };
    assert_eq!(e.message(), "Leadership transition failed from a to b: c");
    let e = LeaderError::NotEligible { node_id: "n".to_string(), reason: "r".to_string() };
    assert_eq!(e.message(), "Node n is not eligible for leadership: r");
    assert_eq!(LeaderError::internal("x").message(), "Internal system error: x");
}

#[test]
fn leader_test_leader_manager_creation() {
    let config = LeaderConfig::default();
    let manager = LeaderManager::new(config);
    assert!(manager.is_ok());
}

#[test]
fn lib_test_leader_manager_creation() {
    let config = LeaderConfig::default();
    let manager = LeaderManager::new(config);
    assert!(manager.is_ok());
}
