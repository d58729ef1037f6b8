//! Errors of leadership, topology and health management.

use vstd::prelude::*;
use crate::text::concat;

verus! {

/// Errors of leader management.
#[derive(Debug)]
pub enum LeaderError {
    /// Leadership election failed
    ElectionFailed { reason: String },
    /// Leader validation failed
    ValidationFailed { reason: String },
    /// Node is not eligible for leadership
    NotEligible { node_id: String, reason: String },
    /// Leadership transition failed
    TransitionFailed { from: String, to: String, reason: String },
    /// Cluster topology error
    TopologyError { reason: String },
    /// Node health check failed
    HealthCheckFailed { node_id: String, reason: String },
    /// Communication error with cluster nodes
    CommunicationError { node_id: String, reason: String },
    /// Configuration error
    ConfigError { reason: String },
    /// Consensus coordination error
    ConsensusError { reason: String },
    /// Internal system error
    Internal { reason: String },
}

/// The text that describes `e`.
pub open spec fn leader_error_text(e: LeaderError) -> Seq<char> {
    match e {
        LeaderError::ElectionFailed { reason } => "Leadership election failed: "@ + reason@,
        LeaderError::ValidationFailed { reason } => "Leader validation failed: "@ + reason@,
        LeaderError::NotEligible { node_id, reason } =>
            "Node "@ + node_id@ + " is not eligible for leadership: "@ + reason@,
        LeaderError::TransitionFailed { from, to, reason } =>
            "Leadership transition failed from "@ + from@ + " to "@ + to@ + ": "@ + reason@,
        LeaderError::TopologyError { reason } => "Cluster topology error: "@ + reason@,
        LeaderError::HealthCheckFailed { node_id, reason } =>
            "Node health check failed for "@ + node_id@ + ": "@ + reason@,
        LeaderError::CommunicationError { node_id, reason } =>
            "Communication error with node "@ + node_id@ + ": "@ + reason@,
        LeaderError::ConfigError { reason } => "Configuration error: "@ + reason@,
        LeaderError::ConsensusError { reason } => "Consensus coordination error: "@ + reason@,
        LeaderError::Internal { reason } => "Internal system error: "@ + reason@,
    }
}

/// `a`, `b`, `c` and `d` one after another.
fn concat4(a: &str, b: &str, c: &str, d: &str) -> (r: String)
    ensures
        r@ == a@ + b@ + c@ + d@,
{
    let ab = concat(a, b);
    let abc = concat(ab.as_str(), c);
    concat(abc.as_str(), d)
}

impl LeaderError {
    /// The text that describes the error.
    pub fn message(&self) -> (r: String)
        ensures
            r@ == leader_error_text(*self),
    {
        match self {
            LeaderError::ElectionFailed { reason } => concat("Leadership election failed: ", reason.as_str()),
            LeaderError::ValidationFailed { reason } => concat("Leader validation failed: ", reason.as_str()),
            LeaderError::NotEligible { node_id, reason } =>
                concat4("Node ", node_id.as_str(), " is not eligible for leadership: ", reason.as_str()),
            LeaderError::TransitionFailed { from, to, reason } => {
                let head = concat4("Leadership transition failed from ", from.as_str(), " to ", to.as_str());
                let tail = concat(": ", reason.as_str());
                concat(head.as_str(), tail.as_str())
            },
            LeaderError::TopologyError { reason } => concat("Cluster topology error: ", reason.as_str()),
            LeaderError::HealthCheckFailed { node_id, reason } =>
                concat4("Node health check failed for ", node_id.as_str(), ": ", reason.as_str()),
            LeaderError::CommunicationError { node_id, reason } =>
                concat4("Communication error with node ", node_id.as_str(), ": ", reason.as_str()),
            LeaderError::ConfigError { reason } => concat("Configuration error: ", reason.as_str()),
            LeaderError::ConsensusError { reason } => concat("Consensus coordination error: ", reason.as_str()),
            LeaderError::Internal { reason } => concat("Internal system error: ", reason.as_str()),
        }
    }

    /// An internal error whose reason is `reason`.
    pub fn internal(reason: &str) -> (r: LeaderError)
        ensures
            r matches LeaderError::Internal { reason: m } && m@ == reason@,
    {
        LeaderError::Internal { reason: reason.to_owned() }
    }
}

} // verus!
