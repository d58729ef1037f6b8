//! Choice of the message encoding (JSON or binary), the size estimate of an
//! encoded message, the buffer an encoded message is kept in, and the
//! errors of encoding and decoding.

use vstd::prelude::*;
use crate::messages::{ProtocolMessage, MessageType};
use crate::memory_pool::{MemoryPool, PooledBuffer, SizeClass, class_of, class_capacity};
use crate::error::RabiaError;
use crate::text::concat;

verus! {

/// The JSON encoding.
#[derive(Debug, Default, Clone, Copy, PartialEq, Eq, Structural)]
pub struct JsonSerializer;

/// The binary encoding.
#[derive(Debug, Default, Clone, Copy, PartialEq, Eq, Structural)]
pub struct BinarySerializer;

/// An encoding of messages.
#[derive(Debug, Clone, Copy, PartialEq, Eq, Structural)]
pub enum Serializer {
    Json(JsonSerializer),
    Binary(BinarySerializer),
}

impl Default for Serializer {
    fn default() -> (r: Serializer)
        ensures
            r is Binary,
    {
        Serializer::Binary(BinarySerializer)
    }
}

/// Settings of the message encoding.
#[derive(Debug, Clone)]
pub struct SerializationConfig {
    pub use_binary: bool,
    pub compression_threshold: usize,
}

impl Default for SerializationConfig {
    fn default() -> (r: SerializationConfig)
        ensures
            r.use_binary,
            r.compression_threshold == 1024,
    {
        SerializationConfig { use_binary: true, compression_threshold: 1024 }
    }
}

/// Makes the serializer a configuration asks for.
pub struct SerializerFactory;

impl SerializerFactory {
    /// The binary serializer when the configuration asks for binary, else
    /// the JSON one.
    pub fn create(config: &SerializationConfig) -> (r: Serializer)
        ensures
            r is Binary <==> config.use_binary,
    {
        if config.use_binary {
            Serializer::Binary(BinarySerializer)
        } else {
            Serializer::Json(JsonSerializer)
        }
    }
}

/// The estimate of the encoded size of `m`, in bytes: 128 bytes of
/// envelope and a payload by kind, 64 bytes for each command or pending
/// batch and 16 bytes for each vote, committed phase or node listed.
pub open spec fn estimated_size(m: ProtocolMessage) -> int {
    let payload: int = match m.message_type {
        MessageType::Propose(p) => 64 + match p.batch {
            Some(b) => b.commands@.len() as int * 64,
            None => 0int,
        },
        MessageType::VoteRound1(_) => 32,
        MessageType::VoteRound2(v) => 32 + v.round1_votes@.len() as int * 16,
        MessageType::Decision(d) => 64 + match d.batch {
            Some(b) => b.commands@.len() as int * 64,
            None => 0int,
        },
        MessageType::SyncRequest(_) => 16,
        MessageType::SyncResponse(r) => 64 + r.pending_batches@.len() as int * 64 + r.committed_phases@.len() as int * 16,
        MessageType::NewBatch(n) => 32 + n.batch.commands@.len() as int * 64,
        MessageType::HeartBeat(_) => 24,
        MessageType::QuorumNotification(q) => 16 + q.active_nodes@.len() as int * 16,
    };
    128 + payload
}

/// The estimate of the encoded size of `message`, in bytes.
pub fn estimate_message_size(message: &ProtocolMessage) -> (r: usize)
    requires
        estimated_size(*message) <= usize::MAX,
    ensures
        r == estimated_size(*message),
{
    let payload: usize = match &message.message_type {
        MessageType::Propose(p) => 64 + match &p.batch {
            Some(b) => b.commands.len() * 64,
            None => 0,
        },
        MessageType::VoteRound1(_) => 32,
        MessageType::VoteRound2(v) => 32 + v.round1_votes.len() * 16,
        MessageType::Decision(d) => 64 + match &d.batch {
            Some(b) => b.commands.len() * 64,
            None => 0,
        },
        MessageType::SyncRequest(_) => 16,
        MessageType::SyncResponse(r) => 64 + r.pending_batches.len() * 64 + r.committed_phases.len() * 16,
        MessageType::NewBatch(n) => 32 + n.batch.commands.len() * 64,
        MessageType::HeartBeat(_) => 24,
        MessageType::QuorumNotification(q) => 16 + q.active_nodes.len() * 16,
    };
    128 + payload
}

/// Whether the size estimate of `message` fits in an `isize`, the bound a
/// pooled buffer is taken under.
pub fn estimate_fits(message: &ProtocolMessage) -> (r: bool)
    ensures
        r == (estimated_size(*message) <= isize::MAX),
{
    let payload: u128 = match &message.message_type {
        MessageType::Propose(p) => 64 + match &p.batch {
            Some(b) => b.commands.len() as u128 * 64,
            None => 0,
        },
        MessageType::VoteRound1(_) => 32,
        MessageType::VoteRound2(v) => 32 + v.round1_votes.len() as u128 * 16,
        MessageType::Decision(d) => 64 + match &d.batch {
            Some(b) => b.commands.len() as u128 * 64,
            None => 0,
        },
        MessageType::SyncRequest(_) => 16,
        MessageType::SyncResponse(r) => 64 + r.pending_batches.len() as u128 * 64 + r.committed_phases.len() as u128 * 16,
        MessageType::NewBatch(n) => 32 + n.batch.commands.len() as u128 * 64,
        MessageType::HeartBeat(_) => 24,
        MessageType::QuorumNotification(q) => 16 + q.active_nodes.len() as u128 * 16,
    };
    128 + payload <= isize::MAX as u128
}

/// The text of a failure of `s` to encode (`encoding`) or decode, with the
/// detail `detail`.
pub open spec fn failure_text(s: Serializer, encoding: bool, detail: Seq<char>) -> Seq<char> {
    (match (s, encoding) {
        (Serializer::Json(_), true) => "JSON serialization failed: "@,
        (Serializer::Json(_), false) => "JSON deserialization failed: "@,
        (Serializer::Binary(_), true) => "Binary serialization failed: "@,
        (Serializer::Binary(_), false) => "Binary deserialization failed: "@,
    }) + detail
}

impl Serializer {
    /// The JSON serializer.
    pub fn json() -> (r: Serializer)
        ensures
            r is Json,
    {
        Serializer::Json(JsonSerializer)
    }

    /// The binary serializer.
    pub fn binary() -> (r: Serializer)
        ensures
            r is Binary,
    {
        Serializer::Binary(BinarySerializer)
    }

    /// Whether the encoding is binary.
    pub fn is_binary(&self) -> (r: bool)
        ensures
            r == (self is Binary),
    {
        matches!(self, Serializer::Binary(_))
    }

    /// The error for a failure to encode (`encoding`) or decode, with the
    /// encoder's own description `detail`.
    pub fn failure(&self, encoding: bool, detail: &str) -> (r: RabiaError)
        ensures
            r matches RabiaError::Internal { message: m }
                && m@ == "Serialization error: "@ + failure_text(*self, encoding, detail@),
    {
        let head = match (self, encoding) {
            (Serializer::Json(_), true) => "JSON serialization failed: ",
            (Serializer::Json(_), false) => "JSON deserialization failed: ",
            (Serializer::Binary(_), true) => "Binary serialization failed: ",
            (Serializer::Binary(_), false) => "Binary deserialization failed: ",
        };
        let text = concat(head, detail);
        RabiaError::serialization(text.as_str())
    }

    /// A buffer from `pool`, of the size class the estimate of `message`
    /// calls for, holding the encoded `bytes`.
    pub fn pooled_message_buffer(&self, pool: &mut MemoryPool, message: &ProtocolMessage, bytes: &[u8]) -> (r: PooledBuffer)
        requires
            estimated_size(*message) <= isize::MAX,
        ensures
            r@ == bytes@,
            r.class_view() == class_of(estimated_size(*message) as nat),
            r.expected_capacity() == class_capacity(estimated_size(*message) as nat),
            r.handed_capacity() >= estimated_size(*message),
            forall|c: SizeClass| final(pool).available(c) == if c == class_of(estimated_size(*message) as nat) {
                if old(pool).available(c) > 0 { (old(pool).available(c) - 1) as nat } else { 0 }
            } else {
                old(pool).available(c)
            },
    {
        let estimated = estimate_message_size(message);
        let mut buffer = pool.get_buffer(estimated);
        buffer.buffer_mut().extend_from_slice(bytes);
        proof {
            assert(buffer@ =~= bytes@);
        }
        buffer
    }
}

} // verus!
