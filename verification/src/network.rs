//! Cluster membership, quorums, and tracking which nodes are reachable.

use vstd::prelude::*;
use crate::types::NodeId;
use crate::node_set::{NodeSet, lemma_filter_membership};

verus! {

/// The quorum size for a cluster of `n` nodes: a strict majority.
pub open spec fn quorum_for(n: nat) -> nat {
    n / 2 + 1
}

/// Any two quorums of a cluster share a node: two sets of nodes of the
/// cluster, each holding at least a majority of it, intersect.
pub proof fn lemma_quorums_intersect(all: Set<NodeId>, a: Set<NodeId>, b: Set<NodeId>)
    requires
        all.finite(),
        a.subset_of(all),
        b.subset_of(all),
        a.len() >= quorum_for(all.len()),
        b.len() >= quorum_for(all.len()),
    ensures
        exists|x: NodeId| a.contains(x) && b.contains(x),
{
    vstd::set_lib::lemma_len_subset(a, all);
    vstd::set_lib::lemma_len_subset(b, all);
    vstd::set_lib::lemma_len_subset(a.union(b), all);
    vstd::set_lib::lemma_set_intersect_union_lens(a, b);
    assert(a.intersect(b).len() > 0);
    if forall|x: NodeId| !(a.contains(x) && b.contains(x)) {
        assert(a.intersect(b) =~= Set::<NodeId>::empty());
    }
}

/// The nodes of a cluster, the local node, and the quorum size.
#[derive(Debug, Clone)]
pub struct ClusterConfig {
    pub node_id: NodeId,
    pub all_nodes: NodeSet,
    pub quorum_size: usize,
}

impl ClusterConfig {
    /// The configuration of a cluster of `all_nodes` seen from `node_id`,
    /// with a majority of the nodes as quorum.
    pub fn new(node_id: NodeId, all_nodes: NodeSet) -> (r: ClusterConfig)
        ensures
            r.node_id == node_id,
            r.all_nodes@ == all_nodes@,
            r.quorum_size == quorum_for(all_nodes.set().len()),
    {
        let n = all_nodes.len();
        ClusterConfig { node_id, all_nodes, quorum_size: n / 2 + 1 }
    }

    /// Whether `active_nodes` are at least a quorum.
    pub fn has_quorum(&self, active_nodes: &NodeSet) -> (r: bool)
        ensures
            r == (active_nodes.set().len() >= self.quorum_size),
    {
        active_nodes.len() >= self.quorum_size
    }

    /// Whether `count` nodes are at least a quorum.
    pub fn is_majority(&self, count: usize) -> (r: bool)
        ensures
            r == (count >= self.quorum_size),
    {
        count >= self.quorum_size
    }

    /// Number of nodes in the cluster.
    pub fn total_nodes(&self) -> (r: usize)
        ensures
            r == self.all_nodes.set().len(),
    {
        self.all_nodes.len()
    }
}

/// A change in reachability seen by the network monitor.
#[derive(Debug, Clone)]
pub enum NetworkEvent {
    NodeConnected(NodeId),
    NodeDisconnected(NodeId),
    NetworkPartition(NodeSet),
    QuorumLost,
    QuorumRestored(NodeSet),
}

/// The value of a network event, the node sets taken by their contents.
pub enum NetworkEventView {
    NodeConnected(NodeId),
    NodeDisconnected(NodeId),
    NetworkPartition(Seq<NodeId>),
    QuorumLost,
    QuorumRestored(Seq<NodeId>),
}

impl View for NetworkEvent {
    type V = NetworkEventView;

    open spec fn view(&self) -> NetworkEventView {
        match self {
            NetworkEvent::NodeConnected(n) => NetworkEventView::NodeConnected(*n),
            NetworkEvent::NodeDisconnected(n) => NetworkEventView::NodeDisconnected(*n),
            NetworkEvent::NetworkPartition(s) => NetworkEventView::NetworkPartition(s@),
            NetworkEvent::QuorumLost => NetworkEventView::QuorumLost,
            NetworkEvent::QuorumRestored(s) => NetworkEventView::QuorumRestored(s@),
        }
    }
}

/// The events an update of the reachable nodes from `old` to `new`
/// produces: a connection for each node of `new` not in `old` (in the order
/// of `new`), a disconnection for each node of `old` not in `new` (in the
/// order of `old`), then the loss or return of the quorum, then the new
/// partition if any node came or went.
pub open spec fn update_events(
    old: Seq<NodeId>,
    new: Seq<NodeId>,
    had_quorum: bool,
    has_quorum: bool,
) -> Seq<NetworkEventView> {
    let joined = new.filter(|x: NodeId| !old.to_set().contains(x));
    let left = old.filter(|x: NodeId| !new.to_set().contains(x));
    let quorum_events = if had_quorum && !has_quorum {
        seq![NetworkEventView::QuorumLost]
    } else if !had_quorum && has_quorum {
        seq![NetworkEventView::QuorumRestored(new)]
    } else {
        Seq::empty()
    };
    let partition_events = if joined.len() > 0 || left.len() > 0 {
        seq![NetworkEventView::NetworkPartition(new)]
    } else {
        Seq::empty()
    };
    joined.map_values(|x: NodeId| NetworkEventView::NodeConnected(x))
        + left.map_values(|x: NodeId| NetworkEventView::NodeDisconnected(x))
        + quorum_events
        + partition_events
}

/// Changes of reachability are reported: a node that was reachable and is
/// no more gets a disconnection event, a node that became reachable gets a
/// connection event, and either way the update ends with a partition event
/// naming the new reachable nodes. An update that leaves the set of
/// reachable nodes as it was reports no node and no partition event, only a
/// change of the quorum if there is one.
pub proof fn lemma_update_events_report_changes(old: Seq<NodeId>, new: Seq<NodeId>, had_quorum: bool, has_quorum: bool, n: NodeId)
    ensures
        old.contains(n) && !new.contains(n) ==> {
            let ev = update_events(old, new, had_quorum, has_quorum);
            &&& ev.len() > 0
            &&& ev.last() == NetworkEventView::NetworkPartition(new)
            &&& ev.contains(NetworkEventView::NodeDisconnected(n))
        },
        new.contains(n) && !old.contains(n) ==> {
            let ev = update_events(old, new, had_quorum, has_quorum);
            &&& ev.len() > 0
            &&& ev.last() == NetworkEventView::NetworkPartition(new)
            &&& ev.contains(NetworkEventView::NodeConnected(n))
        },
        old.to_set() == new.to_set() ==> {
            let ev = update_events(old, new, had_quorum, has_quorum);
            forall|i: int| 0 <= i < ev.len() ==> (#[trigger] ev[i] is QuorumLost || ev[i] is QuorumRestored)
        },
        old.contains(n) && new.contains(n) ==> {
            let ev = update_events(old, new, had_quorum, has_quorum);
            &&& !ev.contains(NetworkEventView::NodeDisconnected(n))
            &&& !ev.contains(NetworkEventView::NodeConnected(n))
        },
        had_quorum && !has_quorum ==> update_events(old, new, had_quorum, has_quorum).contains(NetworkEventView::QuorumLost),
        !had_quorum && has_quorum ==> update_events(old, new, had_quorum, has_quorum).contains(NetworkEventView::QuorumRestored(new)),
        had_quorum == has_quorum ==> {
            let ev = update_events(old, new, had_quorum, has_quorum);
            forall|i: int| 0 <= i < ev.len() ==> !(#[trigger] ev[i] is QuorumLost || ev[i] is QuorumRestored)
        },
{
    let joined = new.filter(|x: NodeId| !old.to_set().contains(x));
    let left = old.filter(|x: NodeId| !new.to_set().contains(x));
    lemma_filter_membership(new, |x: NodeId| !old.to_set().contains(x));
    lemma_filter_membership(old, |x: NodeId| !new.to_set().contains(x));
    let quorum_events = if had_quorum && !has_quorum {
        seq![NetworkEventView::QuorumLost]
    } else if !had_quorum && has_quorum {
        seq![NetworkEventView::QuorumRestored(new)]
    } else {
        Seq::empty()
    };
    let a = joined.map_values(|x: NodeId| NetworkEventView::NodeConnected(x));
    let b = left.map_values(|x: NodeId| NetworkEventView::NodeDisconnected(x));
    let ev = update_events(old, new, had_quorum, has_quorum);
    if old.contains(n) && !new.contains(n) {
        assert(!new.to_set().contains(n));
        assert(left.contains(n));
        let k = choose|k: int| 0 <= k < left.len() && left[k] == n;
        assert(ev == a + b + quorum_events + seq![NetworkEventView::NetworkPartition(new)]);
        assert(ev[a.len() + k] == b[k]);
        assert(ev.contains(NetworkEventView::NodeDisconnected(n)));
    }
    if new.contains(n) && !old.contains(n) {
        assert(!old.to_set().contains(n));
        assert(joined.contains(n));
        let k = choose|k: int| 0 <= k < joined.len() && joined[k] == n;
        assert(ev == a + b + quorum_events + seq![NetworkEventView::NetworkPartition(new)]);
        assert(ev[k] == a[k]);
        assert(ev.contains(NetworkEventView::NodeConnected(n)));
    }
    let p = if joined.len() > 0 || left.len() > 0 {
        seq![NetworkEventView::NetworkPartition(new)]
    } else {
        Seq::empty()
    };
    assert(ev == a + b + quorum_events + p);
    assert forall|i: int| 0 <= i < ev.len() implies (#[trigger] ev[i] == if i < a.len() {
        a[i]
    } else if i < a.len() + b.len() {
        b[i - a.len()]
    } else if i < a.len() + b.len() + quorum_events.len() {
        quorum_events[i - a.len() - b.len()]
    } else {
        p[i - a.len() - b.len() - quorum_events.len()]
    }) by {}
    if old.contains(n) && new.contains(n) {
        assert(new.to_set().contains(n));
        assert(old.to_set().contains(n));
        assert forall|i: int| 0 <= i < ev.len() implies #[trigger] ev[i] != NetworkEventView::NodeDisconnected(n)
            && ev[i] != NetworkEventView::NodeConnected(n) by {
            if i < a.len() {
                assert(a[i] == NetworkEventView::NodeConnected(joined[i]));
                assert(joined.contains(joined[i]));
            } else if i < a.len() + b.len() {
                assert(b[i - a.len()] == NetworkEventView::NodeDisconnected(left[i - a.len()]));
                assert(left.contains(left[i - a.len()]));
            }
        }
    }
    if had_quorum && !has_quorum {
        assert(ev[(a.len() + b.len()) as int] == NetworkEventView::QuorumLost);
    }
    if !had_quorum && has_quorum {
        assert(ev[(a.len() + b.len()) as int] == NetworkEventView::QuorumRestored(new));
    }
    if had_quorum == has_quorum {
        assert forall|i: int| 0 <= i < ev.len() implies !(#[trigger] ev[i] is QuorumLost || ev[i] is QuorumRestored) by {
            if i < a.len() {
                assert(a[i] == NetworkEventView::NodeConnected(joined[i]));
            } else if i < a.len() + b.len() {
                assert(b[i - a.len()] == NetworkEventView::NodeDisconnected(left[i - a.len()]));
            }
        }
    }
    if old.to_set() == new.to_set() {
        if joined.len() > 0 {
            assert(joined.contains(joined[0]));
            assert(new.contains(joined[0]));
            assert(new.to_set().contains(joined[0]));
        }
        if left.len() > 0 {
            assert(left.contains(left[0]));
            assert(old.contains(left[0]));
            assert(old.to_set().contains(left[0]));
        }
        assert(ev =~= quorum_events);
    }
}

/// The views of a list of events.
pub open spec fn events_view(s: Seq<NetworkEvent>) -> Seq<NetworkEventView> {
    s.map_values(|e: NetworkEvent| e@)
}

/// Tracks which nodes are reachable and whether they form a quorum.
#[derive(Debug)]
pub struct NetworkMonitor {
    config: ClusterConfig,
    connected_nodes: NodeSet,
    has_quorum: bool,
}

impl NetworkMonitor {
    /// The configured cluster size.
    pub closed spec fn quorum(&self) -> nat {
        self.config.quorum_size as nat
    }

    /// The nodes seen as reachable.
    pub closed spec fn connected(&self) -> Seq<NodeId> {
        self.connected_nodes@
    }

    /// Whether the reachable nodes formed a quorum at the last update.
    pub closed spec fn quorum_held(&self) -> bool {
        self.has_quorum
    }

    /// A monitor that starts with every node of the cluster reachable.
    pub fn new(config: ClusterConfig) -> (r: NetworkMonitor)
        ensures
            r.connected() == config.all_nodes@,
            r.quorum() == config.quorum_size,
            r.quorum_held() == (config.all_nodes.set().len() >= config.quorum_size),
    {
        let connected_nodes = config.all_nodes.clone();
        let has_quorum = config.has_quorum(&connected_nodes);
        NetworkMonitor { config, connected_nodes, has_quorum }
    }

    /// Records that `nodes` are now the reachable nodes and returns the
    /// events this change produces.
    pub fn update_connected_nodes(&mut self, nodes: NodeSet) -> (r: Vec<NetworkEvent>)
        ensures
            events_view(r@) == update_events(
                old(self).connected(),
                nodes@,
                old(self).quorum_held(),
                nodes.set().len() >= old(self).quorum(),
            ),
            final(self).connected() == nodes@,
            final(self).quorum_held() == (nodes.set().len() >= old(self).quorum()),
            final(self).quorum() == old(self).quorum(),
    {
        let newly_connected = nodes.difference(&self.connected_nodes);
        let newly_disconnected = self.connected_nodes.difference(&nodes);
        let ghost joined = newly_connected@;
        let ghost left = newly_disconnected@;
        let mut events: Vec<NetworkEvent> = Vec::new();
        let joined_vec = newly_connected.to_vec();
        let mut i: usize = 0;
        while i < joined_vec.len()
            invariant
                i <= joined_vec@.len(),
                joined_vec@ == joined,
                events@.len() == i,
                forall|k: int| 0 <= k < i ==> #[trigger] events@[k]@ == NetworkEventView::NodeConnected(joined[k]),
            decreases joined_vec@.len() - i,
        {
            events.push(NetworkEvent::NodeConnected(joined_vec[i]));
            i = i + 1;
        }
        let left_vec = newly_disconnected.to_vec();
        let mut j: usize = 0;
        while j < left_vec.len()
            invariant
                j <= left_vec@.len(),
                left_vec@ == left,
                joined_vec@ == joined,
                events@.len() == joined.len() + j,
                forall|k: int| 0 <= k < joined.len() ==> #[trigger] events@[k]@ == NetworkEventView::NodeConnected(joined[k]),
                forall|k: int| joined.len() <= k < joined.len() + j ==> #[trigger] events@[k]@ == NetworkEventView::NodeDisconnected(left[k - joined.len()]),
            decreases left_vec@.len() - j,
        {
            events.push(NetworkEvent::NodeDisconnected(left_vec[j]));
            j = j + 1;
        }
        let ghost prefix2 = events_view(events@);
        assert(prefix2 =~= joined.map_values(|x: NodeId| NetworkEventView::NodeConnected(x))
            + left.map_values(|x: NodeId| NetworkEventView::NodeDisconnected(x)));
        let new_has_quorum = self.config.has_quorum(&nodes);
        if self.has_quorum && !new_has_quorum {
            events.push(NetworkEvent::QuorumLost);
        } else if !self.has_quorum && new_has_quorum {
            events.push(NetworkEvent::QuorumRestored(nodes.clone()));
        }
        let ghost prefix3 = events_view(events@);
        if !newly_connected.is_empty() || !newly_disconnected.is_empty() {
            events.push(NetworkEvent::NetworkPartition(nodes.clone()));
        }
        proof {
            assert(events_view(events@) =~= update_events(
                self.connected_nodes@,
                nodes@,
                self.has_quorum,
                nodes.set().len() >= self.config.quorum_size,
            ));
        }
        self.connected_nodes = nodes;
        self.has_quorum = new_has_quorum;
        events
    }

    /// Whether the reachable nodes form a quorum.
    pub fn has_quorum(&self) -> (r: bool)
        ensures
            r == self.quorum_held(),
    {
        self.has_quorum
    }

    /// The reachable nodes.
    pub fn connected_nodes(&self) -> (r: &NodeSet)
        ensures
            r@ == self.connected(),
    {
        &self.connected_nodes
    }

    /// The quorum size.
    pub fn quorum_size(&self) -> (r: usize)
        ensures
            r == self.quorum(),
    {
        self.config.quorum_size
    }
}

/// The nodes a broadcast from `self_id` reaches among `connected`: all but
/// the sender and the excluded node, in order.
pub fn broadcast_targets(connected: &Vec<NodeId>, self_id: NodeId, exclude: Option<NodeId>) -> (r: Vec<NodeId>)
    ensures
        r@ == connected@.filter(|x: NodeId| Some(x) != exclude && x != self_id),
{
    let ghost f = |x: NodeId| Some(x) != exclude && x != self_id;
    let mut out: Vec<NodeId> = Vec::new();
    let mut i: usize = 0;
    while i < connected.len()
        invariant
            i <= connected@.len(),
            f == (|x: NodeId| Some(x) != exclude && x != self_id),
            out@ == connected@.take(i as int).filter(f),
        decreases connected@.len() - i,
    {
        let x = connected[i];
        if Some(x) != exclude && x != self_id {
            out.push(x);
        }
        proof {
            reveal_with_fuel(Seq::filter, 1);
            assert(connected@.take(i + 1) =~= connected@.take(i as int).push(x));
            assert(connected@.take(i as int).push(x).drop_last() =~= connected@.take(i as int));
        }
        i = i + 1;
    }
    assert(connected@.take(connected@.len() as int) =~= connected@);
    out
}

} // verus!
