//! Framing of messages on a byte stream: a 32-bit big-endian length, then
//! that many bytes of payload; and the buffer sizes of a connection.

use vstd::prelude::*;
use crate::error::RabiaError;
use crate::text::{around_number, decimal_text, concat};
use crate::types::NodeId;
use crate::ids::uuid_text;

verus! {

/// Most bytes a payload may have: 16 MiB.
pub const MAX_PAYLOAD_SIZE: usize = 16 * 1024 * 1024;

/// Most bytes a frame may have: the length field and the largest payload.
pub const MAX_FRAME_SIZE: usize = 4 + 16 * 1024 * 1024;

/// The four bytes of `n`, most significant first.
pub open spec fn be_u32(n: u32) -> Seq<u8> {
    seq![(n >> 24u32) as u8, ((n >> 16u32) & 0xffu32) as u8, ((n >> 8u32) & 0xffu32) as u8, (n & 0xffu32) as u8]
}

/// The number whose four bytes, most significant first, are `b`.
pub open spec fn be_u32_value(b: Seq<u8>) -> u32 {
    ((b[0] as u32) << 24u32) | ((b[1] as u32) << 16u32) | ((b[2] as u32) << 8u32) | (b[3] as u32)
}

/// Reading the four bytes of a number gives the number back.
pub proof fn lemma_be_u32_roundtrip(n: u32)
    ensures
        be_u32_value(be_u32(n)) == n,
{
    let b0 = (n >> 24u32) as u8;
    let b1 = ((n >> 16u32) & 0xffu32) as u8;
    let b2 = ((n >> 8u32) & 0xffu32) as u8;
    let b3 = (n & 0xffu32) as u8;
    assert(((b0 as u32) << 24u32) | ((b1 as u32) << 16u32) | ((b2 as u32) << 8u32) | (b3 as u32) == n) by (bit_vector)
        requires
            b0 == (n >> 24u32) as u8,
            b1 == ((n >> 16u32) & 0xffu32) as u8,
            b2 == ((n >> 8u32) & 0xffu32) as u8,
            b3 == (n & 0xffu32) as u8;
}

/// The bytes of the frame with payload `payload`.
pub open spec fn frame_bytes(payload: Seq<u8>) -> Seq<u8> {
    be_u32(payload.len() as u32) + payload
}

/// The payload that the complete frame `bytes` carries, if it is one: a
/// length field within the limit and exactly that many bytes after it.
pub open spec fn frame_payload(bytes: Seq<u8>) -> Option<Seq<u8>> {
    if bytes.len() < 4 {
        None
    } else {
        let n = be_u32_value(bytes.subrange(0, 4));
        if n > MAX_PAYLOAD_SIZE || bytes.len() != 4 + n {
            None
        } else {
            Some(bytes.subrange(4, bytes.len() as int))
        }
    }
}

/// Decoding the bytes of a frame gives its payload back.
pub proof fn lemma_frame_roundtrip(payload: Seq<u8>)
    requires
        payload.len() <= MAX_PAYLOAD_SIZE,
    ensures
        frame_payload(frame_bytes(payload)) == Some(payload),
{
    let n = payload.len() as u32;
    lemma_be_u32_roundtrip(n);
    let b = frame_bytes(payload);
    assert(b.subrange(0, 4) =~= be_u32(n));
    assert(b.subrange(4, b.len() as int) =~= payload);
}

/// A payload with its length, ready to be written.
#[derive(Debug, Clone)]
pub struct MessageFrame {
    /// Length of the message payload
    pub length: u32,
    /// Message payload
    pub payload: Vec<u8>,
}

impl MessageFrame {
    /// The frame of `payload`; refused with a network error when the
    /// payload is over the limit.
    pub fn new(payload: Vec<u8>) -> (r: Result<MessageFrame, RabiaError>)
        ensures
            payload@.len() > MAX_PAYLOAD_SIZE ==> (r matches Err(RabiaError::Network { message: m })
                && m@ == "Message too large: "@ + decimal_text(payload@.len()) + " bytes"@),
            payload@.len() <= MAX_PAYLOAD_SIZE ==> (r matches Ok(f)
                && f.payload@ == payload@ && f.length == payload@.len()),
    {
        if payload.len() > MAX_FRAME_SIZE - 4 {
            let message = around_number("Message too large: ", payload.len() as u64, " bytes");
            return Err(RabiaError::Network { message });
        }
        Ok(MessageFrame { length: payload.len() as u32, payload })
    }

    /// The frame's bytes: the length, most significant byte first, then
    /// the payload.
    pub fn to_bytes(&self) -> (r: Vec<u8>)
        ensures
            r@ == be_u32(self.length) + self.payload@,
    {
        let mut buf: Vec<u8> = Vec::new();
        let n = self.length;
        buf.push((n >> 24) as u8);
        buf.push(((n >> 16) & 0xff) as u8);
        buf.push(((n >> 8) & 0xff) as u8);
        buf.push((n & 0xff) as u8);
        buf.extend_from_slice(self.payload.as_slice());
        proof {
            assert(buf@ =~= be_u32(self.length) + self.payload@);
        }
        buf
    }

    /// The payload length a frame header announces; refused with a network
    /// error when it is over the limit.
    pub fn read_length(header: &[u8]) -> (r: Result<u32, RabiaError>)
        requires
            header@.len() == 4,
        ensures
            be_u32_value(header@) > MAX_PAYLOAD_SIZE ==> (r matches Err(RabiaError::Network { message: m })
                && m@ == "Frame too large: "@ + decimal_text(be_u32_value(header@) as nat) + " bytes"@),
            be_u32_value(header@) <= MAX_PAYLOAD_SIZE ==> r == Ok::<u32, RabiaError>(be_u32_value(header@)),
    {
        let length: u32 = ((header[0] as u32) << 24) | ((header[1] as u32) << 16) | ((header[2] as u32) << 8) | (header[3] as u32);
        if length as usize > MAX_FRAME_SIZE - 4 {
            let message = around_number("Frame too large: ", length as u64, " bytes");
            return Err(RabiaError::Network { message });
        }
        Ok(length)
    }

    /// The frame that the complete bytes `bytes` hold, if they are one.
    pub fn from_bytes(bytes: &[u8]) -> (r: Option<MessageFrame>)
        ensures
            match frame_payload(bytes@) {
                Some(p) => r matches Some(f) && f.payload@ == p && f.length == p.len(),
                None => r is None,
            },
    {
        if bytes.len() < 4 {
            return None;
        }
        let header = slice_range(bytes, 0, 4);
        proof {
            assert(header@ =~= bytes@.subrange(0, 4));
        }
        let length = match MessageFrame::read_length(header.as_slice()) {
            Ok(n) => n,
            Err(_) => return None,
        };
        if bytes.len() - 4 != length as usize {
            return None;
        }
        let payload = slice_range(bytes, 4, bytes.len());
        Some(MessageFrame { length, payload })
    }
}

/// The bytes of `b` from `start` up to `end`.
fn slice_range(b: &[u8], start: usize, end: usize) -> (r: Vec<u8>)
    requires
        start <= end <= b@.len(),
    ensures
        r@ == b@.subrange(start as int, end as int),
{
    let mut out: Vec<u8> = Vec::new();
    let mut i = start;
    while i < end
        invariant
            start <= i <= end,
            end <= b@.len(),
            out@ == b@.subrange(start as int, i as int),
        decreases end - i,
    {
        out.push(b[i]);
        i = i + 1;
        assert(out@ =~= b@.subrange(start as int, i as int));
    }
    out
}

/// Checks that the peer answering a handshake is the one expected;
/// otherwise a network error names both.
pub fn check_peer_identity(expected: NodeId, got: NodeId) -> (r: Result<(), RabiaError>)
    ensures
        got == expected ==> r is Ok,
        got != expected ==> (r matches Err(RabiaError::Network { message: m })
            && m@ == "Node ID mismatch: expected "@ + uuid_text(expected.0) + ", got "@ + uuid_text(got.0)),
{
    if got != expected {
        let e = expected.to_text();
        let g = got.to_text();
        let head = concat("Node ID mismatch: expected ", e.as_str());
        let tail = concat(", got ", g.as_str());
        return Err(RabiaError::Network { message: concat(head.as_str(), tail.as_str()) });
    }
    Ok(())
}

/// Buffer sizes of a connection.
#[derive(Debug, Clone)]
pub struct BufferConfig {
    /// TCP read buffer size
    pub read_buffer_size: usize,
    /// TCP write buffer size
    pub write_buffer_size: usize,
    /// Message queue size per connection
    pub message_queue_size: usize,
}

impl Default for BufferConfig {
    fn default() -> (r: BufferConfig)
        ensures
            r.read_buffer_size == 64 * 1024,
            r.write_buffer_size == 64 * 1024,
            r.message_queue_size == 1000,
    {
        BufferConfig { read_buffer_size: 64 * 1024, write_buffer_size: 64 * 1024, message_queue_size: 1000 }
    }
}

} // verus!
