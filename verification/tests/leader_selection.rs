use rabia::types::NodeId;
use rabia::node_set::NodeSet;
use rabia::leader_selector::LeaderSelector;

fn set_of(nodes: &[NodeId]) -> NodeSet {
    let mut s = NodeSet::new();
    for n in nodes {
        s.insert(*n);
    }
    s
}

#[test]
fn test_empty_cluster_has_no_leader() {
    let selector = LeaderSelector::new();
    assert_eq!(selector.get_leader(), None);
    assert_eq!(selector.cluster_size(), 0);
    assert!(!selector.has_nodes());
}

#[test]
fn test_single_node_becomes_leader() {
    let node1 = NodeId::from(1);
    let nodes = set_of(&[node1]);

    let selector = LeaderSelector::with_cluster(nodes);
    assert_eq!(selector.get_leader(), Some(node1));
    assert!(selector.is_leader(node1));
    assert_eq!(selector.cluster_size(), 1);
}

#[test]
fn test_multiple_nodes_first_becomes_leader() {
    let node1 = NodeId::from(1);
    let node2 = NodeId::from(2);
    let node3 = NodeId::from(3);

    let nodes = set_of(&[node3, node1, node2]);

    let selector = LeaderSelector::with_cluster(nodes);

    assert_eq!(selector.get_leader(), Some(node1));
    assert!(selector.is_leader(node1));
    assert!(!selector.is_leader(node2));
    assert!(!selector.is_leader(node3));
    assert_eq!(selector.cluster_size(), 3);
}

#[test]
fn test_leader_changes_when_cluster_changes() {
    let node1 = NodeId::from(1);
    let node2 = NodeId::from(2);
    let node3 = NodeId::from(3);

    let mut selector = LeaderSelector::new();

    let nodes = set_of(&[node2, node3]);

    let new_leader = selector.update_cluster_view(nodes);
    assert_eq!(new_leader, Some(node2));
    assert_eq!(selector.get_leader(), Some(node2));

    let new_leader = selector.add_node(node1);
    assert_eq!(new_leader, Some(node1));
    assert_eq!(selector.get_leader(), Some(node1));

    let new_leader = selector.remove_node(node1);
    assert_eq!(new_leader, Some(node2));
    assert_eq!(selector.get_leader(), Some(node2));
}

#[test]
fn test_no_leader_change_when_non_leader_leaves() {
    let node1 = NodeId::from(1);
    let node2 = NodeId::from(2);
    let node3 = NodeId::from(3);

    let nodes = set_of(&[node1, node2, node3]);

    let mut selector = LeaderSelector::with_cluster(nodes);
    assert_eq!(selector.get_leader(), Some(node1));

    let new_leader = selector.remove_node(node3);
    assert_eq!(new_leader, None);
    assert_eq!(selector.get_leader(), Some(node1));
}

#[test]
fn test_leadership_info() {
    let node1 = NodeId::from(1);
    let node2 = NodeId::from(2);

    let nodes = set_of(&[node1, node2]);

    let selector = LeaderSelector::with_cluster(nodes);
    let info = selector.get_leadership_info();

    assert_eq!(info.leader, Some(node1));
    assert_eq!(info.cluster_size, 2);
    assert!(info.cluster_nodes.contains(&node1));
    assert!(info.cluster_nodes.contains(&node2));
}

#[test]
fn test_deterministic_ordering() {
    let node1 = NodeId::from(5);
    let node2 = NodeId::from(1);
    let node3 = NodeId::from(3);

    let nodes1 = set_of(&[node1, node2, node3]);
    let selector1 = LeaderSelector::with_cluster(nodes1);

    let nodes2 = set_of(&[node3, node1, node2]);
    let selector2 = LeaderSelector::with_cluster(nodes2);

    assert_eq!(selector1.get_leader(), selector2.get_leader());
    assert_eq!(selector1.get_cluster_view(), selector2.get_cluster_view());
}

#[test]
fn the_view_is_sorted_and_the_leader_is_its_first_node() {
    let ids: Vec<NodeId> = [9u32, 4, 7, 1, 8].iter().map(|v| NodeId::from(*v)).collect();
    let selector = LeaderSelector::with_cluster(set_of(&ids));
    let view = selector.get_cluster_view();
    assert_eq!(view.len(), 5);
    for w in view.windows(2) {
        assert!(w[0] < w[1]);
    }
    assert_eq!(selector.get_leader(), Some(view[0]));
    assert_eq!(selector.determine_leader(), Some(NodeId::from(1u32)));
}

#[test]
fn adding_a_present_node_changes_nothing() {
    let mut selector = LeaderSelector::with_cluster(set_of(&[NodeId::from(2u32)]));
    assert_eq!(selector.add_node(NodeId::from(2u32)), None);
    assert_eq!(selector.cluster_size(), 1);
}
