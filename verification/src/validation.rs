//! Validation of protocol messages and command batches.

use vstd::prelude::*;
use crate::types::{BatchId, Command, CommandBatch, NodeId, PhaseId};
use crate::messages::{MessageType, ProtocolMessage};
use crate::error::RabiaError;
use crate::text::{around_number, concat, decimal, decimal_text};
use crate::clock::unix_time_millis;

verus! {

/// Something that can check its own well-formedness.
pub trait Validator {
    /// `Ok` when the value is well-formed, else the first violation found.
    fn validate(&self) -> Result<(), RabiaError>;
}

/// Limits that validation enforces.
#[derive(Debug, Clone)]
pub struct ValidationConfig {
    pub max_batch_size: usize,
    pub max_command_size: usize,
    pub max_clock_skew_ms: u64,
    pub min_phase_id: u64,
    pub max_phase_id: u64,
}

impl Default for ValidationConfig {
    /// At most 1000 commands per batch, 1 MiB per command, one minute of
    /// clock skew, and any phase number.
    fn default() -> (r: ValidationConfig)
        ensures
            r.max_batch_size == 1000,
            r.max_command_size == 1024 * 1024,
            r.max_clock_skew_ms == 60_000,
            r.min_phase_id == 0,
            r.max_phase_id == u64::MAX,
    {
        ValidationConfig {
            max_batch_size: 1000,
            max_command_size: 1024 * 1024,
            max_clock_skew_ms: 60_000,
            min_phase_id: 0,
            max_phase_id: u64::MAX,
        }
    }
}

/// The largest number of commands a batch may hold.
pub open spec fn max_batch_commands() -> nat { 1000 }

/// The largest size of a command's data, in bytes.
pub open spec fn max_command_bytes() -> nat { 1024 * 1024 }

/// The tolerated clock skew, in milliseconds.
pub open spec fn max_skew_ms() -> nat { 60_000 }

/// A batch is valid at time `now` when it holds between 1 and 1000
/// commands, each with between 1 byte and 1 MiB of data, and is not stamped
/// more than the tolerated skew after `now`.
pub open spec fn batch_valid_at(b: CommandBatch, now: u64) -> bool {
    &&& b.commands@.len() <= max_batch_commands()
    &&& b.commands@.len() > 0
    &&& forall|i: int| 0 <= i < b.commands@.len() ==>
            0 < (#[trigger] b.commands@[i]).data@.len() <= max_command_bytes()
    &&& b.timestamp <= now + max_skew_ms()
}

/// The error text for the first command of `cs` that is empty or over the
/// size limit, if any.
pub open spec fn command_fault(cs: Seq<Command>) -> Option<Seq<char>>
    decreases cs.len(),
{
    if cs.len() == 0 {
        None
    } else if cs[0].data@.len() > max_command_bytes() {
        Some("Command size "@ + decimal_text(cs[0].data@.len()) + " exceeds maximum "@ + decimal_text(max_command_bytes()))
    } else if cs[0].data@.len() == 0 {
        Some("Command data cannot be empty"@)
    } else {
        command_fault(cs.subrange(1, cs.len() as int))
    }
}

/// The error text with which a batch is refused at `now`, checked in order:
/// its size, its emptiness, its commands, its timestamp; `None` when it
/// passes.
pub open spec fn batch_fault(b: CommandBatch, now: u64) -> Option<Seq<char>> {
    if b.commands@.len() > max_batch_commands() {
        Some("Batch size "@ + decimal_text(b.commands@.len()) + " exceeds maximum "@ + decimal_text(max_batch_commands()))
    } else if b.commands@.len() == 0 {
        Some("Batch cannot be empty"@)
    } else if command_fault(b.commands@) is Some {
        command_fault(b.commands@)
    } else if b.timestamp > now + max_skew_ms() {
        Some("Batch timestamp "@ + decimal_text(b.timestamp as nat) + " is too far in the future"@)
    } else {
        None
    }
}

/// The error text with which a message whose timestamp is not acceptable
/// at `now` is refused.
pub open spec fn timestamp_fault(m: ProtocolMessage, now: u64) -> Seq<char> {
    if m.timestamp > now + max_skew_ms() {
        "Message timestamp "@ + decimal_text(m.timestamp as nat) + " is too far in the future (current: "@
            + decimal_text(now as nat) + ")"@
    } else {
        "Message timestamp "@ + decimal_text(m.timestamp as nat) + " is too old (current: "@
            + decimal_text(now as nat) + ")"@
    }
}

/// The checks of one kind of message, the timestamp aside.
pub open spec fn message_type_valid_at(t: MessageType, now: u64) -> bool {
    match t {
        MessageType::Propose(p) => p.batch matches Some(b) ==> batch_valid_at(b, now),
        MessageType::VoteRound1(_) => true,
        MessageType::VoteRound2(v) => v.round1_votes@.len() > 0,
        MessageType::Decision(d) => d.batch matches Some(b) ==> batch_valid_at(b, now),
        MessageType::SyncRequest(_) => true,
        MessageType::SyncResponse(r) => forall|i: int| 0 <= i < r.pending_batches@.len() ==>
            batch_valid_at(#[trigger] r.pending_batches@[i].1, now),
        MessageType::NewBatch(n) => batch_valid_at(n.batch, now),
        MessageType::HeartBeat(h) => h.last_committed_phase.0 <= h.current_phase.0,
        MessageType::QuorumNotification(_) => true,
    }
}

/// The message's timestamp is within the tolerated skew ahead of `now` and
/// not more than ten times the skew behind it.
pub open spec fn message_timestamp_ok(m: ProtocolMessage, now: u64) -> bool {
    &&& m.timestamp <= now + max_skew_ms()
    &&& (if now >= m.timestamp { now - m.timestamp } else { 0 }) <= max_skew_ms() * 10
}

/// A message is valid at `now` when its timestamp is acceptable and its
/// contents pass the checks of its kind.
pub open spec fn message_valid_at(m: ProtocolMessage, now: u64) -> bool {
    message_timestamp_ok(m, now) && message_type_valid_at(m.message_type, now)
}

/// Checks a batch against the limits of `ValidationConfig::default()` at
/// time `now` (milliseconds since the Unix epoch).
pub fn validate_batch_at(b: &CommandBatch, now: u64) -> (r: Result<(), RabiaError>)
    ensures
        r is Ok <==> batch_valid_at(*b, now),
        match batch_fault(*b, now) {
            Some(t) => r matches Err(RabiaError::Internal { message: m }) && m@ == t,
            None => r is Ok,
        },
{
    let config = ValidationConfig::default();
    let n = b.commands.len();
    if n > config.max_batch_size {
        let head = around_number("Batch size ", n as u64, " exceeds maximum ");
        let tail = decimal(config.max_batch_size as u64);
        let text = concat(head.as_str(), tail.as_str());
        proof {
            assert(text@ =~= "Batch size "@ + decimal_text(b.commands@.len()) + " exceeds maximum "@
                + decimal_text(max_batch_commands()));
        }
        return Err(RabiaError::Internal { message: text });
    }
    if n == 0 {
        return Err(RabiaError::internal("Batch cannot be empty"));
    }
    proof {
        assert(b.commands@.subrange(0, n as int) =~= b.commands@);
    }
    let mut i: usize = 0;
    while i < n
        invariant
            i <= n,
            n == b.commands@.len(),
            0 < n <= max_batch_commands(),
            config.max_command_size == max_command_bytes(),
            forall|j: int| 0 <= j < i ==> 0 < (#[trigger] b.commands@[j]).data@.len() <= max_command_bytes(),
            command_fault(b.commands@) == command_fault(b.commands@.subrange(i as int, n as int)),
        decreases n - i,
    {
        proof {
            let rest = b.commands@.subrange(i as int, n as int);
            assert(rest[0] == b.commands@[i as int]);
            assert(rest.subrange(1, rest.len() as int) =~= b.commands@.subrange(i + 1, n as int));
        }
        let len = b.commands[i].data.len();
        if len > config.max_command_size {
            let head = around_number("Command size ", len as u64, " exceeds maximum ");
            let tail = decimal(config.max_command_size as u64);
            let text = concat(head.as_str(), tail.as_str());
            proof {
                assert(text@ =~= "Command size "@ + decimal_text(b.commands@[i as int].data@.len())
                    + " exceeds maximum "@ + decimal_text(max_command_bytes()));
                assert(command_fault(b.commands@) == Some(text@));
            }
            return Err(RabiaError::Internal { message: text });
        }
        if len == 0 {
            proof {
                assert(command_fault(b.commands@) == Some("Command data cannot be empty"@));
            }
            return Err(RabiaError::internal("Command data cannot be empty"));
        }
        i = i + 1;
    }
    proof {
        assert(b.commands@.subrange(n as int, n as int).len() == 0);
    }
    if b.timestamp as u128 > now as u128 + config.max_clock_skew_ms as u128 {
        return Err(RabiaError::Internal {
            message: around_number("Batch timestamp ", b.timestamp, " is too far in the future"),
        });
    }
    Ok(())
}

/// Checks a phase number against the default range, which admits every
/// number.
pub fn validate_phase_id(phase_id: &PhaseId) -> (r: Result<(), RabiaError>)
    ensures
        r is Ok,
{
    let config = ValidationConfig::default();
    let value = phase_id.value();
    if value < config.min_phase_id || value > config.max_phase_id {
        let head = around_number("Phase ID ", value, " is out of valid range [");
        let mid = around_number("", config.min_phase_id, ", ");
        let tail = around_number("", config.max_phase_id, "]");
        let s = concat(head.as_str(), mid.as_str());
        return Err(RabiaError::Internal { message: concat(s.as_str(), tail.as_str()) });
    }
    Ok(())
}

/// Every batch identifier is accepted.
pub fn validate_batch_id(_batch_id: &BatchId) -> (r: Result<(), RabiaError>)
    ensures
        r is Ok,
{
    Ok(())
}

/// Every node identifier is accepted.
pub fn validate_node_id(_node_id: &NodeId) -> (r: Result<(), RabiaError>)
    ensures
        r is Ok,
{
    Ok(())
}

/// Checks a message at time `now` (milliseconds since the Unix epoch): its
/// timestamp, then the checks of its kind.
#[verifier::loop_isolation(false)]
pub fn validate_message_at(m: &ProtocolMessage, now: u64) -> (r: Result<(), RabiaError>)
    ensures
        r is Ok <==> message_valid_at(*m, now),
        message_timestamp_ok(*m, now) ==> (m.message_type matches MessageType::HeartBeat(h)
            ==> (h.last_committed_phase.0 > h.current_phase.0
            ==> (r matches Err(RabiaError::InvalidStateTransition { from, to })
                && from@ == "committed="@ + decimal_text(h.last_committed_phase.0 as nat)
                && to@ == "current="@ + decimal_text(h.current_phase.0 as nat)))),
        !message_timestamp_ok(*m, now) ==> (r matches Err(RabiaError::Internal { message: t })
            && t@ == timestamp_fault(*m, now)),
        message_timestamp_ok(*m, now) ==> (m.message_type matches MessageType::VoteRound2(v)
            ==> (v.round1_votes@.len() == 0 ==> (r matches Err(RabiaError::Internal { message: t })
                && t@ == "Round 2 vote must include round 1 votes"@))),
        message_timestamp_ok(*m, now) ==> (m.message_type matches MessageType::Propose(p)
            ==> (p.batch matches Some(b) ==> (batch_fault(b, now) is Some
            ==> (r matches Err(RabiaError::Internal { message: t }) && Some(t@) == batch_fault(b, now))))),
        message_timestamp_ok(*m, now) ==> (m.message_type matches MessageType::Decision(d)
            ==> (d.batch matches Some(b) ==> (batch_fault(b, now) is Some
            ==> (r matches Err(RabiaError::Internal { message: t }) && Some(t@) == batch_fault(b, now))))),
        message_timestamp_ok(*m, now) ==> (m.message_type matches MessageType::NewBatch(n)
            ==> (batch_fault(n.batch, now) is Some
            ==> (r matches Err(RabiaError::Internal { message: t }) && Some(t@) == batch_fault(n.batch, now)))),
        message_timestamp_ok(*m, now) ==> (m.message_type matches MessageType::SyncResponse(s)
            ==> (r matches Err(e) ==> exists|j: int| 0 <= j < s.pending_batches@.len()
                && (#[trigger] batch_fault(s.pending_batches@[j].1, now)) is Some
                && (e matches RabiaError::Internal { message: t } && Some(t@) == batch_fault(s.pending_batches@[j].1, now)))),
{
    let config = ValidationConfig::default();
    if m.timestamp as u128 > now as u128 + config.max_clock_skew_ms as u128 {
        let head = around_number("Message timestamp ", m.timestamp, " is too far in the future (current: ");
        let tail = around_number("", now, ")");
        let text = concat(head.as_str(), tail.as_str());
        proof {
            reveal_strlit("");
            assert(text@ =~= timestamp_fault(*m, now));
        }
        return Err(RabiaError::Internal { message: text });
    }
    if now.saturating_sub(m.timestamp) as u128 > config.max_clock_skew_ms as u128 * 10 {
        let head = around_number("Message timestamp ", m.timestamp, " is too old (current: ");
        let tail = around_number("", now, ")");
        let text = concat(head.as_str(), tail.as_str());
        proof {
            reveal_strlit("");
            assert(text@ =~= timestamp_fault(*m, now));
        }
        return Err(RabiaError::Internal { message: text });
    }
    match &m.message_type {
        MessageType::Propose(propose) => {
            validate_phase_id(&propose.phase_id)?;
            validate_batch_id(&propose.batch_id)?;
            if let Some(batch) = &propose.batch {
                validate_batch_at(batch, now)?;
            }
        },
        MessageType::VoteRound1(vote) => {
            validate_phase_id(&vote.phase_id)?;
            validate_batch_id(&vote.batch_id)?;
            validate_node_id(&vote.voter_id)?;
        },
        MessageType::VoteRound2(vote) => {
            validate_phase_id(&vote.phase_id)?;
            validate_batch_id(&vote.batch_id)?;
            validate_node_id(&vote.voter_id)?;
            if vote.round1_votes.is_empty() {
                return Err(RabiaError::internal("Round 2 vote must include round 1 votes"));
            }
        },
        MessageType::Decision(decision) => {
            validate_phase_id(&decision.phase_id)?;
            validate_batch_id(&decision.batch_id)?;
            if let Some(batch) = &decision.batch {
                validate_batch_at(batch, now)?;
            }
        },
        MessageType::SyncRequest(request) => {
            validate_phase_id(&request.requester_phase)?;
        },
        MessageType::SyncResponse(response) => {
            validate_phase_id(&response.responder_phase)?;
            let mut i: usize = 0;
            while i < response.pending_batches.len()
                invariant
                    i <= response.pending_batches@.len(),
                    forall|j: int| 0 <= j < i ==> batch_valid_at(#[trigger] response.pending_batches@[j].1, now),
                decreases response.pending_batches@.len() - i,
            {
                validate_batch_id(&response.pending_batches[i].0)?;
                validate_batch_at(&response.pending_batches[i].1, now)?;
                i = i + 1;
            }
        },
        MessageType::NewBatch(new_batch) => {
            validate_batch_at(&new_batch.batch, now)?;
            validate_node_id(&new_batch.originator)?;
        },
        MessageType::HeartBeat(heartbeat) => {
            validate_phase_id(&heartbeat.current_phase)?;
            validate_phase_id(&heartbeat.last_committed_phase)?;
            if heartbeat.last_committed_phase.0 > heartbeat.current_phase.0 {
                return Err(RabiaError::InvalidStateTransition {
                    from: concat("committed=", decimal(heartbeat.last_committed_phase.0).as_str()),
                    to: concat("current=", decimal(heartbeat.current_phase.0).as_str()),
                });
            }
        },
        MessageType::QuorumNotification(notification) => {
            let mut i: usize = 0;
            while i < notification.active_nodes.len()
                invariant
                    i <= notification.active_nodes@.len(),
                decreases notification.active_nodes@.len() - i,
            {
                validate_node_id(&notification.active_nodes[i])?;
                i = i + 1;
            }
        },
    }
    Ok(())
}

impl Validator for ProtocolMessage {
    /// Checks the message at the current time of the system clock.
    fn validate(&self) -> (r: Result<(), RabiaError>)
        ensures
            exists|now: u64| (r is Ok <==> message_valid_at(*self, now)),
    {
        let now = unix_time_millis();
        validate_message_at(self, now)
    }
}

impl Validator for CommandBatch {
    /// Checks the batch at the current time of the system clock.
    fn validate(&self) -> (r: Result<(), RabiaError>)
        ensures
            exists|now: u64| (r is Ok <==> batch_valid_at(*self, now)),
    {
        let now = unix_time_millis();
        validate_batch_at(self, now)
    }
}

/// Checks that `current_phase` follows `previous_phase`: it must be later,
/// by at most 1000 phases.
pub fn validate_message_sequence(previous_phase: PhaseId, current_phase: PhaseId) -> (r: Result<(), RabiaError>)
    ensures
        r is Ok <==> (previous_phase.0 < current_phase.0 && current_phase.0 - previous_phase.0 <= 1000),
        current_phase.0 <= previous_phase.0 ==> (r matches Err(RabiaError::InvalidStateTransition { from: f, to: t })
            && f@ == "phase="@ + decimal_text(previous_phase.0 as nat)
            && t@ == "phase="@ + decimal_text(current_phase.0 as nat)),
        current_phase.0 - previous_phase.0 > 1000 ==> (r matches Err(RabiaError::Internal { message: m })
            && m@ == "Phase jump "@ + decimal_text((current_phase.0 - previous_phase.0) as nat) + " is suspiciously large"@),
{
    if current_phase.value() <= previous_phase.value() {
        return Err(RabiaError::InvalidStateTransition {
            from: concat("phase=", decimal(previous_phase.0).as_str()),
            to: concat("phase=", decimal(current_phase.0).as_str()),
        });
    }
    let jump = current_phase.value() - previous_phase.value();
    if jump > 1000 {
        return Err(RabiaError::Internal { message: around_number("Phase jump ", jump, " is suspiciously large") });
    }
    Ok(())
}

} // verus!
