//! Fundamental types of the protocol.

use vstd::prelude::*;
use crate::ids::{random_uuid_value, uuid_value_from_bytes, be_bytes_value, uuid_string, uuid_text, is_random_uuid};
use crate::text::{decimal, decimal_text};
use vstd::string::StringSliceAdditionalSpecFns;

verus! {

/// Unique identifier of a node in the cluster, held as the value of its UUID.
#[derive(Debug, Clone, Copy, PartialEq, Eq, PartialOrd, Ord, Hash, Structural)]
pub struct NodeId(pub u128);

impl NodeId {
    /// A fresh random node identifier: the value of a random (version 4)
    /// UUID.
    pub fn new() -> (r: NodeId)
        ensures
            is_random_uuid(r.0),
    {
        NodeId(random_uuid_value())
    }

    /// The text of the identifier: its UUID, hyphenated.
    pub fn to_text(&self) -> (r: String)
        ensures
            r@ == uuid_text(self.0),
    {
        uuid_string(self.0)
    }
}

/// The identifier value that `NodeId::from(u32)` builds: the four big-endian
/// bytes of `v`, repeated four times.
pub open spec fn repeated_u32_value(v: u32) -> nat {
    (v as nat) * 0x0000_0001_0000_0001_0000_0001_0000_0001nat
}

} // verus!

verus! {

proof fn lemma_be_value_16(b: Seq<u8>)
    requires
        b.len() == 16,
    ensures
        be_bytes_value(b) == b[0] as nat * 0x1000000000000000000000000000000nat
            + b[1] as nat * 0x10000000000000000000000000000nat
            + b[2] as nat * 0x100000000000000000000000000nat
            + b[3] as nat * 0x1000000000000000000000000nat
            + b[4] as nat * 0x10000000000000000000000nat
            + b[5] as nat * 0x100000000000000000000nat
            + b[6] as nat * 0x1000000000000000000nat
            + b[7] as nat * 0x10000000000000000nat
            + b[8] as nat * 0x100000000000000nat
            + b[9] as nat * 0x1000000000000nat
            + b[10] as nat * 0x10000000000nat
            + b[11] as nat * 0x100000000nat
            + b[12] as nat * 0x1000000nat
            + b[13] as nat * 0x10000nat
            + b[14] as nat * 0x100nat
            + b[15] as nat,
{
    assert(be_bytes_value(b.take(0)) == 0);
    assert(b.take(1).drop_last() =~= b.take(0));
    assert(be_bytes_value(b.take(1)) == b[0] as nat);
    assert(b.take(2).drop_last() =~= b.take(1));
    assert(be_bytes_value(b.take(2)) == b[0] as nat * 0x100nat + b[1] as nat);
    assert(b.take(3).drop_last() =~= b.take(2));
    assert(be_bytes_value(b.take(3)) == b[0] as nat * 0x10000nat + b[1] as nat * 0x100nat + b[2] as nat);
    assert(b.take(4).drop_last() =~= b.take(3));
    assert(be_bytes_value(b.take(4)) == b[0] as nat * 0x1000000nat + b[1] as nat * 0x10000nat + b[2] as nat * 0x100nat + b[3] as nat);
    assert(b.take(5).drop_last() =~= b.take(4));
    assert(be_bytes_value(b.take(5)) == b[0] as nat * 0x100000000nat + b[1] as nat * 0x1000000nat + b[2] as nat * 0x10000nat + b[3] as nat * 0x100nat + b[4] as nat);
    assert(b.take(6).drop_last() =~= b.take(5));
    assert(be_bytes_value(b.take(6)) == b[0] as nat * 0x10000000000nat + b[1] as nat * 0x100000000nat + b[2] as nat * 0x1000000nat + b[3] as nat * 0x10000nat + b[4] as nat * 0x100nat + b[5] as nat);
    assert(b.take(7).drop_last() =~= b.take(6));
    assert(be_bytes_value(b.take(7)) == b[0] as nat * 0x1000000000000nat + b[1] as nat * 0x10000000000nat + b[2] as nat * 0x100000000nat + b[3] as nat * 0x1000000nat + b[4] as nat * 0x10000nat + b[5] as nat * 0x100nat + b[6] as nat);
    assert(b.take(8).drop_last() =~= b.take(7));
    assert(be_bytes_value(b.take(8)) == b[0] as nat * 0x100000000000000nat + b[1] as nat * 0x1000000000000nat + b[2] as nat * 0x10000000000nat + b[3] as nat * 0x100000000nat + b[4] as nat * 0x1000000nat + b[5] as nat * 0x10000nat + b[6] as nat * 0x100nat + b[7] as nat);
    assert(b.take(9).drop_last() =~= b.take(8));
    assert(be_bytes_value(b.take(9)) == b[0] as nat * 0x10000000000000000nat + b[1] as nat * 0x100000000000000nat + b[2] as nat * 0x1000000000000nat + b[3] as nat * 0x10000000000nat + b[4] as nat * 0x100000000nat + b[5] as nat * 0x1000000nat + b[6] as nat * 0x10000nat + b[7] as nat * 0x100nat + b[8] as nat);
    assert(b.take(10).drop_last() =~= b.take(9));
    assert(be_bytes_value(b.take(10)) == b[0] as nat * 0x1000000000000000000nat + b[1] as nat * 0x10000000000000000nat + b[2] as nat * 0x100000000000000nat + b[3] as nat * 0x1000000000000nat + b[4] as nat * 0x10000000000nat + b[5] as nat * 0x100000000nat + b[6] as nat * 0x1000000nat + b[7] as nat * 0x10000nat + b[8] as nat * 0x100nat + b[9] as nat);
    assert(b.take(11).drop_last() =~= b.take(10));
    assert(be_bytes_value(b.take(11)) == b[0] as nat * 0x100000000000000000000nat + b[1] as nat * 0x1000000000000000000nat + b[2] as nat * 0x10000000000000000nat + b[3] as nat * 0x100000000000000nat + b[4] as nat * 0x1000000000000nat + b[5] as nat * 0x10000000000nat + b[6] as nat * 0x100000000nat + b[7] as nat * 0x1000000nat + b[8] as nat * 0x10000nat + b[9] as nat * 0x100nat + b[10] as nat);
    assert(b.take(12).drop_last() =~= b.take(11));
    assert(be_bytes_value(b.take(12)) == b[0] as nat * 0x10000000000000000000000nat + b[1] as nat * 0x100000000000000000000nat + b[2] as nat * 0x1000000000000000000nat + b[3] as nat * 0x10000000000000000nat + b[4] as nat * 0x100000000000000nat + b[5] as nat * 0x1000000000000nat + b[6] as nat * 0x10000000000nat + b[7] as nat * 0x100000000nat + b[8] as nat * 0x1000000nat + b[9] as nat * 0x10000nat + b[10] as nat * 0x100nat + b[11] as nat);
    assert(b.take(13).drop_last() =~= b.take(12));
    assert(be_bytes_value(b.take(13)) == b[0] as nat * 0x1000000000000000000000000nat + b[1] as nat * 0x10000000000000000000000nat + b[2] as nat * 0x100000000000000000000nat + b[3] as nat * 0x1000000000000000000nat + b[4] as nat * 0x10000000000000000nat + b[5] as nat * 0x100000000000000nat + b[6] as nat * 0x1000000000000nat + b[7] as nat * 0x10000000000nat + b[8] as nat * 0x100000000nat + b[9] as nat * 0x1000000nat + b[10] as nat * 0x10000nat + b[11] as nat * 0x100nat + b[12] as nat);
    assert(b.take(14).drop_last() =~= b.take(13));
    assert(be_bytes_value(b.take(14)) == b[0] as nat * 0x100000000000000000000000000nat + b[1] as nat * 0x1000000000000000000000000nat + b[2] as nat * 0x10000000000000000000000nat + b[3] as nat * 0x100000000000000000000nat + b[4] as nat * 0x1000000000000000000nat + b[5] as nat * 0x10000000000000000nat + b[6] as nat * 0x100000000000000nat + b[7] as nat * 0x1000000000000nat + b[8] as nat * 0x10000000000nat + b[9] as nat * 0x100000000nat + b[10] as nat * 0x1000000nat + b[11] as nat * 0x10000nat + b[12] as nat * 0x100nat + b[13] as nat);
    assert(b.take(15).drop_last() =~= b.take(14));
    assert(be_bytes_value(b.take(15)) == b[0] as nat * 0x10000000000000000000000000000nat + b[1] as nat * 0x100000000000000000000000000nat + b[2] as nat * 0x1000000000000000000000000nat + b[3] as nat * 0x10000000000000000000000nat + b[4] as nat * 0x100000000000000000000nat + b[5] as nat * 0x1000000000000000000nat + b[6] as nat * 0x10000000000000000nat + b[7] as nat * 0x100000000000000nat + b[8] as nat * 0x1000000000000nat + b[9] as nat * 0x10000000000nat + b[10] as nat * 0x100000000nat + b[11] as nat * 0x1000000nat + b[12] as nat * 0x10000nat + b[13] as nat * 0x100nat + b[14] as nat);
    assert(b.take(16).drop_last() =~= b.take(15));
    assert(be_bytes_value(b.take(16)) == b[0] as nat * 0x1000000000000000000000000000000nat + b[1] as nat * 0x10000000000000000000000000000nat + b[2] as nat * 0x100000000000000000000000000nat + b[3] as nat * 0x1000000000000000000000000nat + b[4] as nat * 0x10000000000000000000000nat + b[5] as nat * 0x100000000000000000000nat + b[6] as nat * 0x1000000000000000000nat + b[7] as nat * 0x10000000000000000nat + b[8] as nat * 0x100000000000000nat + b[9] as nat * 0x1000000000000nat + b[10] as nat * 0x10000000000nat + b[11] as nat * 0x100000000nat + b[12] as nat * 0x1000000nat + b[13] as nat * 0x10000nat + b[14] as nat * 0x100nat + b[15] as nat);
    assert(b.take(16) =~= b);
}

impl From<u32> for NodeId {
    /// A deterministic identifier: the four big-endian bytes of `value`,
    /// repeated four times.
    fn from(value: u32) -> (r: NodeId) {
        let bytes: [u8; 16] = [
            (value >> 24u32) as u8, (value >> 16u32) as u8, (value >> 8u32) as u8, value as u8,
            (value >> 24u32) as u8, (value >> 16u32) as u8, (value >> 8u32) as u8, value as u8,
            (value >> 24u32) as u8, (value >> 16u32) as u8, (value >> 8u32) as u8, value as u8,
            (value >> 24u32) as u8, (value >> 16u32) as u8, (value >> 8u32) as u8, value as u8,
        ];
        let r = uuid_value_from_bytes(bytes);
        proof {
            lemma_be_value_16(bytes@);
            let b0 = (value >> 24u32) as u8;
            let b1 = (value >> 16u32) as u8;
            let b2 = (value >> 8u32) as u8;
            let b3 = value as u8;
            assert(b0 as nat * 0x100_0000 + b1 as nat * 0x1_0000 + b2 as nat * 0x100 + b3 as nat == value as nat) by (bit_vector)
                requires b0 == (value >> 24u32) as u8, b1 == (value >> 16u32) as u8, b2 == (value >> 8u32) as u8, b3 == value as u8;
        }
        NodeId(r)
    }
}

impl vstd::std_specs::convert::FromSpecImpl<u32> for NodeId {
    open spec fn obeys_from_spec() -> bool {
        true
    }

    open spec fn from_spec(v: u32) -> NodeId {
        NodeId(repeated_u32_value(v) as u128)
    }
}

} // verus!

verus! {

/// The identifier value that `NodeId::from(u64)` builds: the eight big-endian
/// bytes of `v`, repeated twice.
pub open spec fn repeated_u64_value(v: u64) -> nat {
    (v as nat) * 0x1_0000_0000_0000_0001nat
}

impl From<u64> for NodeId {
    /// A deterministic identifier: the eight big-endian bytes of `value`,
    /// repeated twice.
    fn from(value: u64) -> (r: NodeId) {
        let bytes: [u8; 16] = [
            (value >> 56u64) as u8, (value >> 48u64) as u8, (value >> 40u64) as u8, (value >> 32u64) as u8,
            (value >> 24u64) as u8, (value >> 16u64) as u8, (value >> 8u64) as u8, value as u8,
            (value >> 56u64) as u8, (value >> 48u64) as u8, (value >> 40u64) as u8, (value >> 32u64) as u8,
            (value >> 24u64) as u8, (value >> 16u64) as u8, (value >> 8u64) as u8, value as u8,
        ];
        let r = uuid_value_from_bytes(bytes);
        proof {
            lemma_be_value_16(bytes@);
            let b0 = (value >> 56u64) as u8;
            let b1 = (value >> 48u64) as u8;
            let b2 = (value >> 40u64) as u8;
            let b3 = (value >> 32u64) as u8;
            let b4 = (value >> 24u64) as u8;
            let b5 = (value >> 16u64) as u8;
            let b6 = (value >> 8u64) as u8;
            let b7 = value as u8;
            assert(b0 as nat * 0x100_0000_0000_0000 + b1 as nat * 0x1_0000_0000_0000
                + b2 as nat * 0x100_0000_0000 + b3 as nat * 0x1_0000_0000
                + b4 as nat * 0x100_0000 + b5 as nat * 0x1_0000 + b6 as nat * 0x100 + b7 as nat
                == value as nat) by (bit_vector)
                requires
                    b0 == (value >> 56u64) as u8, b1 == (value >> 48u64) as u8,
                    b2 == (value >> 40u64) as u8, b3 == (value >> 32u64) as u8,
                    b4 == (value >> 24u64) as u8, b5 == (value >> 16u64) as u8,
                    b6 == (value >> 8u64) as u8, b7 == value as u8;
        }
        NodeId(r)
    }
}

impl vstd::std_specs::convert::FromSpecImpl<u64> for NodeId {
    open spec fn obeys_from_spec() -> bool {
        true
    }

    open spec fn from_spec(v: u64) -> NodeId {
        NodeId(repeated_u64_value(v) as u128)
    }
}

impl From<i32> for NodeId {
    /// A deterministic identifier built from the bits of `value` read as a
    /// `u32`.
    fn from(value: i32) -> (r: NodeId) {
        NodeId::from(value as u32)
    }
}

impl vstd::std_specs::convert::FromSpecImpl<i32> for NodeId {
    open spec fn obeys_from_spec() -> bool {
        true
    }

    open spec fn from_spec(v: i32) -> NodeId {
        NodeId(repeated_u32_value(v as u32) as u128)
    }
}

/// Identifiers built from distinct numbers are distinct and ordered as the
/// numbers are: `NodeId::from(a) < NodeId::from(b)` exactly when `a < b`.
pub proof fn lemma_node_id_from_u32_order(a: u32, b: u32)
    ensures
        (repeated_u32_value(a) < repeated_u32_value(b)) == (a < b),
        (repeated_u32_value(a) == repeated_u32_value(b)) == (a == b),
        repeated_u32_value(a) < 0x1_0000_0000_0000_0000_0000_0000_0000_0000nat,
{
}

/// Whether a node takes part in consensus.
#[derive(Debug, Clone, Copy, PartialEq, Eq, Hash, Structural)]
pub enum ConsensusState {
    /// Node is actively participating in consensus
    Active,
    /// Node is not currently participating in consensus
    Idle,
}

impl ConsensusState {
    /// "Active" or "Idle".
    pub fn to_text(&self) -> (r: &'static str)
        ensures
            r@ == match *self {
                ConsensusState::Active => "Active"@,
                ConsensusState::Idle => "Idle"@,
            },
    {
        match self {
            ConsensusState::Active => "Active",
            ConsensusState::Idle => "Idle",
        }
    }
}

/// Identifier of a consensus phase; phases are numbered in increasing order.
#[derive(Debug, Clone, Copy, PartialEq, Eq, PartialOrd, Ord, Hash, Structural)]
pub struct PhaseId(pub u64);

impl PhaseId {
    /// The phase with number `id`.
    pub fn new(id: u64) -> (r: PhaseId)
        ensures
            r.0 == id,
    {
        PhaseId(id)
    }

    /// The phase that follows this one.
    pub fn next(&self) -> (r: PhaseId)
        requires
            self.0 < u64::MAX,
        ensures
            r.0 == self.0 + 1,
    {
        PhaseId(self.0 + 1)
    }

    /// The number of this phase.
    pub fn value(&self) -> (r: u64)
        ensures
            r == self.0,
    {
        self.0
    }

    /// The text of the phase: its number in decimal.
    pub fn to_text(&self) -> (r: String)
        ensures
            r@ == decimal_text(self.0 as nat),
    {
        decimal(self.0)
    }
}

/// Unique identifier of a command batch, held as the value of its UUID.
#[derive(Debug, Clone, Copy, PartialEq, Eq, Hash, Structural)]
pub struct BatchId(pub u128);

impl BatchId {
    /// A fresh random batch identifier: the value of a random (version 4)
    /// UUID.
    pub fn new() -> (r: BatchId)
        ensures
            is_random_uuid(r.0),
    {
        BatchId(random_uuid_value())
    }

    /// The text of the identifier: its UUID, hyphenated.
    pub fn to_text(&self) -> (r: String)
        ensures
            r@ == uuid_text(self.0),
    {
        uuid_string(self.0)
    }
}

/// Values a node votes for: reject, accept, or undecided.
#[derive(Debug, Clone, Copy, PartialEq, Eq, Structural)]
pub enum StateValue {
    /// Vote to reject the proposed value
    V0,
    /// Vote to accept the proposed value
    V1,
    /// Undecided vote, used in the randomized phase
    VQuestion,
}

impl StateValue {
    /// "V0", "V1" or "V?".
    pub fn to_text(&self) -> (r: &'static str)
        ensures
            r@ == match *self {
                StateValue::V0 => "V0"@,
                StateValue::V1 => "V1"@,
                StateValue::VQuestion => "V?"@,
            },
    {
        match self {
            StateValue::V0 => "V0",
            StateValue::V1 => "V1",
            StateValue::VQuestion => "V?",
        }
    }
}

/// A command for the replicated state machine: a unique identifier and the
/// command's bytes.
#[derive(Debug, PartialEq, Eq)]
pub struct Command {
    /// Unique identifier for this command
    pub id: u128,
    /// Command data to be executed by the state machine
    pub data: Vec<u8>,
}

/// A copy of a byte slice.
pub fn copy_bytes(data: &[u8]) -> (r: Vec<u8>)
    ensures
        r@ == data@,
{
    let mut out: Vec<u8> = Vec::with_capacity(data.len());
    let mut i: usize = 0;
    while i < data.len()
        invariant
            i <= data.len(),
            out@ == data@.take(i as int),
        decreases data.len() - i,
    {
        out.push(data[i]);
        i = i + 1;
        assert(out@ =~= data@.take(i as int));
    }
    assert(data@.take(data.len() as int) =~= data@);
    out
}

impl Command {
    /// A command with a fresh random identifier whose data are the UTF-8
    /// bytes of `data`.
    pub fn new(data: &str) -> (r: Command)
        ensures
            r.data@ == data.spec_bytes(),
            is_random_uuid(r.id),
    {
        Command { id: random_uuid_value(), data: copy_bytes(data.as_bytes()) }
    }

    /// A command with a fresh random identifier holding `data`.
    pub fn from_bytes(data: Vec<u8>) -> (r: Command)
        ensures
            r.data@ == data@,
            is_random_uuid(r.id),
    {
        Command { id: random_uuid_value(), data }
    }
}

/// The value of a command: its identifier and bytes.
pub struct CommandView {
    pub id: u128,
    pub data: Seq<u8>,
}

impl View for Command {
    type V = CommandView;

    open spec fn view(&self) -> CommandView {
        CommandView { id: self.id, data: self.data@ }
    }
}

/// The values of a list of commands.
pub open spec fn commands_view(s: Seq<Command>) -> Seq<CommandView> {
    s.map_values(|c: Command| c@)
}

impl Clone for Command {
    /// A copy with the same identifier and bytes.
    fn clone(&self) -> (r: Command)
        ensures
            r@ == self@,
    {
        let data = copy_bytes(self.data.as_slice());
        assert(data@ =~= self.data@);
        Command { id: self.id, data }
    }
}

/// A copy of a list of commands.
pub fn copy_commands(v: &Vec<Command>) -> (r: Vec<Command>)
    ensures
        commands_view(r@) == commands_view(v@),
{
    let mut out: Vec<Command> = Vec::with_capacity(v.len());
    let mut i: usize = 0;
    while i < v.len()
        invariant
            i <= v@.len(),
            out@.len() == i,
            forall|j: int| 0 <= j < i ==> #[trigger] out@[j]@ == v@[j]@,
        decreases v@.len() - i,
    {
        out.push(v[i].clone());
        i = i + 1;
    }
    assert(commands_view(out@) =~= commands_view(v@));
    out
}

/// A batch of commands decided on together.
#[derive(Debug, PartialEq, Eq)]
pub struct CommandBatch {
    /// Unique identifier for this batch
    pub id: BatchId,
    /// Commands included in this batch
    pub commands: Vec<Command>,
    /// Timestamp when the batch was created (milliseconds since Unix epoch)
    pub timestamp: u64,
}

/// The value of a batch: identifier, command values and timestamp.
pub struct CommandBatchView {
    pub id: BatchId,
    pub commands: Seq<CommandView>,
    pub timestamp: u64,
}

impl View for CommandBatch {
    type V = CommandBatchView;

    open spec fn view(&self) -> CommandBatchView {
        CommandBatchView { id: self.id, commands: commands_view(self.commands@), timestamp: self.timestamp }
    }
}

impl Clone for CommandBatch {
    /// A copy with the same identifier, commands and timestamp.
    fn clone(&self) -> (r: CommandBatch)
        ensures
            r@ == self@,
    {
        let commands = copy_commands(&self.commands);
        CommandBatch { id: self.id, commands, timestamp: self.timestamp }
    }
}

impl CommandBatch {
    /// A batch of `commands` with a fresh random identifier, stamped with the
    /// current time.
    pub fn new(commands: Vec<Command>) -> (r: CommandBatch)
        ensures
            r.commands@ == commands@,
            is_random_uuid(r.id.0),
    {
        CommandBatch::new_at(commands, crate::clock::unix_time_millis())
    }

    /// A batch of `commands` with a fresh random identifier, stamped with
    /// `timestamp` (milliseconds since the Unix epoch).
    pub fn new_at(commands: Vec<Command>, timestamp: u64) -> (r: CommandBatch)
        ensures
            r.commands@ == commands@,
            r.timestamp == timestamp,
            is_random_uuid(r.id.0),
    {
        CommandBatch { id: BatchId::new(), commands, timestamp }
    }

    /// The integrity checksum of a batch, given the batch's JSON encoding:
    /// the CRC-32 of those bytes.
    pub fn checksum_of_encoding(encoded: &[u8]) -> (r: u32)
        ensures
            r == crate::checksum::crc32_of(encoded@),
    {
        crate::checksum::crc32_hash(encoded)
    }
}

} // verus!
