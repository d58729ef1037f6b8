//! Error types of the protocol.

use vstd::prelude::*;
use crate::types::{BatchId, NodeId, PhaseId};
use crate::text::{concat, decimal_text, around_number};
use crate::ids::uuid_text;

verus! {

#[verifier::external_type_specification]
#[verifier::external_body]
pub struct ExJsonError(serde_json::Error);

#[verifier::external_type_specification]
#[verifier::external_body]
pub struct ExIoError(std::io::Error);

/// Errors of the consensus protocol, each with the context that explains it.
#[derive(Debug)]
pub enum RabiaError {
    /// Network communication failure between nodes
    Network { message: String },
    /// Persistent storage operation failure
    Persistence { message: String },
    /// State machine execution failure
    StateMachine { message: String },
    /// Consensus protocol violation or failure
    Consensus { message: String },
    /// Referenced node was not found in the cluster
    NodeNotFound { node_id: NodeId },
    /// Referenced consensus phase was not found
    PhaseNotFound { phase_id: PhaseId },
    /// Referenced command batch was not found
    BatchNotFound { batch_id: BatchId },
    /// Invalid state machine transition attempted
    InvalidStateTransition { from: String, to: String },
    /// Insufficient nodes available to form a quorum
    QuorumNotAvailable { current: usize, required: usize },
    /// Data integrity check failed due to checksum mismatch
    ChecksumMismatch { expected: u32, actual: u32 },
    /// State corruption detected in persistent storage
    StateCorruption { details: String },
    /// Incomplete write operation detected
    PartialWrite { details: String },
    /// Operation exceeded its timeout limit
    Timeout { operation: String },
    /// JSON serialization/deserialization failure
    Serialization(serde_json::Error),
    /// File system or network I/O failure
    Io(std::io::Error),
    /// Unexpected internal error
    Internal { message: String },
}

/// The text of a JSON error, as its `Display` writes it.
///
/// Calls `serde_json::Error`'s `Display` through `to_string`; nothing is
/// stated of the text.
#[verifier::external_body]
fn json_error_text(e: &serde_json::Error) -> (r: String) {
    e.to_string()
}

/// The text of an I/O error, as its `Display` writes it.
///
/// Calls `std::io::Error`'s `Display` through `to_string`; nothing is
/// stated of the text.
#[verifier::external_body]
fn io_error_text(e: &std::io::Error) -> (r: String) {
    e.to_string()
}

/// The text that describes `e`, for the errors that carry no outside error.
pub open spec fn error_text(e: RabiaError) -> Seq<char> {
    match e {
        RabiaError::Network { message } => "Network error: "@ + message@,
        RabiaError::Persistence { message } => "Persistence error: "@ + message@,
        RabiaError::StateMachine { message } => "State machine error: "@ + message@,
        RabiaError::Consensus { message } => "Consensus error: "@ + message@,
        RabiaError::NodeNotFound { node_id } => "Node "@ + uuid_text(node_id.0) + " not found"@,
        RabiaError::PhaseNotFound { phase_id } => "Phase "@ + decimal_text(phase_id.0 as nat) + " not found"@,
        RabiaError::BatchNotFound { batch_id } => "Batch "@ + uuid_text(batch_id.0) + " not found"@,
        RabiaError::InvalidStateTransition { from, to } => "Invalid state transition from "@ + from@ + " to "@ + to@,
        RabiaError::QuorumNotAvailable { current, required } =>
            "Quorum not available: "@ + decimal_text(current as nat) + "/"@ + decimal_text(required as nat) + " nodes"@,
        RabiaError::ChecksumMismatch { expected, actual } =>
            "Checksum mismatch: expected "@ + decimal_text(expected as nat) + ", got "@ + decimal_text(actual as nat),
        RabiaError::StateCorruption { details } => "State corruption detected: "@ + details@,
        RabiaError::PartialWrite { details } => "Partial write detected: "@ + details@,
        RabiaError::Timeout { operation } => "Timeout occurred: "@ + operation@,
        RabiaError::Serialization(_) => "Serialization error: "@,
        RabiaError::Io(_) => "IO error: "@,
        RabiaError::Internal { message } => "Internal error: "@ + message@,
    }
}

impl From<serde_json::Error> for RabiaError {
    fn from(e: serde_json::Error) -> (r: RabiaError)
        ensures
            r == RabiaError::Serialization(e),
    {
        RabiaError::Serialization(e)
    }
}

impl vstd::std_specs::convert::FromSpecImpl<serde_json::Error> for RabiaError {
    open spec fn obeys_from_spec() -> bool {
        true
    }

    open spec fn from_spec(v: serde_json::Error) -> RabiaError {
        RabiaError::Serialization(v)
    }
}

impl From<std::io::Error> for RabiaError {
    fn from(e: std::io::Error) -> (r: RabiaError)
        ensures
            r == RabiaError::Io(e),
    {
        RabiaError::Io(e)
    }
}

impl vstd::std_specs::convert::FromSpecImpl<std::io::Error> for RabiaError {
    open spec fn obeys_from_spec() -> bool {
        true
    }

    open spec fn from_spec(v: std::io::Error) -> RabiaError {
        RabiaError::Io(v)
    }
}

impl RabiaError {
    /// The text that describes the error; for a JSON or I/O error, its own
    /// text follows the prefix.
    pub fn message(&self) -> (r: String)
        ensures
            match *self {
                RabiaError::Serialization(_) | RabiaError::Io(_) => error_text(*self).is_prefix_of(r@),
                _ => r@ == error_text(*self),
            },
    {
        match self {
            RabiaError::Network { message } => concat("Network error: ", message.as_str()),
            RabiaError::Persistence { message } => concat("Persistence error: ", message.as_str()),
            RabiaError::StateMachine { message } => concat("State machine error: ", message.as_str()),
            RabiaError::Consensus { message } => concat("Consensus error: ", message.as_str()),
            RabiaError::NodeNotFound { node_id } => {
                let id = node_id.to_text();
                let head = concat("Node ", id.as_str());
                concat(head.as_str(), " not found")
            },
            RabiaError::PhaseNotFound { phase_id } => around_number("Phase ", phase_id.0, " not found"),
            RabiaError::BatchNotFound { batch_id } => {
                let id = batch_id.to_text();
                let head = concat("Batch ", id.as_str());
                concat(head.as_str(), " not found")
            },
            RabiaError::InvalidStateTransition { from, to } => {
                let head = concat("Invalid state transition from ", from.as_str());
                let tail = concat(" to ", to.as_str());
                concat(head.as_str(), tail.as_str())
            },
            RabiaError::QuorumNotAvailable { current, required } => {
                let head = around_number("Quorum not available: ", *current as u64, "/");
                around_number(head.as_str(), *required as u64, " nodes")
            },
            RabiaError::ChecksumMismatch { expected, actual } => {
                let head = around_number("Checksum mismatch: expected ", *expected as u64, ", got ");
                let r = around_number(head.as_str(), *actual as u64, "");
                proof { reveal_strlit(""); }
                r
            },
            RabiaError::StateCorruption { details } => concat("State corruption detected: ", details.as_str()),
            RabiaError::PartialWrite { details } => concat("Partial write detected: ", details.as_str()),
            RabiaError::Timeout { operation } => concat("Timeout occurred: ", operation.as_str()),
            RabiaError::Serialization(e) => {
                let t = json_error_text(e);
                concat("Serialization error: ", t.as_str())
            },
            RabiaError::Io(e) => {
                let t = io_error_text(e);
                concat("IO error: ", t.as_str())
            },
            RabiaError::Internal { message } => concat("Internal error: ", message.as_str()),
        }
    }

    /// A network error with the given message.
    pub fn network(message: &str) -> (r: RabiaError)
        ensures
            r matches RabiaError::Network { message: m } && m@ == message@,
    {
        RabiaError::Network { message: message.to_owned() }
    }

    /// A persistence error with the given message.
    pub fn persistence(message: &str) -> (r: RabiaError)
        ensures
            r matches RabiaError::Persistence { message: m } && m@ == message@,
    {
        RabiaError::Persistence { message: message.to_owned() }
    }

    /// A state machine error with the given message.
    pub fn state_machine(message: &str) -> (r: RabiaError)
        ensures
            r matches RabiaError::StateMachine { message: m } && m@ == message@,
    {
        RabiaError::StateMachine { message: message.to_owned() }
    }

    /// A consensus error with the given message.
    pub fn consensus(message: &str) -> (r: RabiaError)
        ensures
            r matches RabiaError::Consensus { message: m } && m@ == message@,
    {
        RabiaError::Consensus { message: message.to_owned() }
    }

    /// An internal error with the given message.
    pub fn internal(message: &str) -> (r: RabiaError)
        ensures
            r matches RabiaError::Internal { message: m } && m@ == message@,
    {
        RabiaError::Internal { message: message.to_owned() }
    }

    /// An internal error whose message is `message` behind the prefix
    /// "Serialization error: ".
    pub fn serialization(message: &str) -> (r: RabiaError)
        ensures
            r matches RabiaError::Internal { message: m } && m@ == "Serialization error: "@ + message@,
    {
        RabiaError::Internal { message: crate::text::concat("Serialization error: ", message) }
    }

    /// Whether the condition may clear up when the operation is retried:
    /// network failures, timeouts and a missing quorum.
    pub fn is_retryable(&self) -> (r: bool)
        ensures
            r == (self is Network || self is Timeout || self is QuorumNotAvailable),
    {
        match self {
            RabiaError::Network { .. } => true,
            RabiaError::Timeout { .. } => true,
            RabiaError::QuorumNotAvailable { .. } => true,
            _ => false,
        }
    }
}

} // verus!
