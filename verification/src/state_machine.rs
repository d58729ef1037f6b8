//! Snapshots of replicated state, checked by CRC-32; and an in-memory
//! key-value state machine driven by text commands.

use vstd::prelude::*;
use vstd::utf8::encode_utf8;
use vstd::utf8::valid_utf8;
use vstd::utf8::decode_utf8;
use crate::checksum::{crc32_hash, crc32_of};
use crate::types::{Command, copy_bytes};
use crate::error::RabiaError;
use crate::str_table::StrTable;
use crate::table::entries_map;
use crate::engine_state::bumped;

verus! {

/// A snapshot of state machine data with its version and checksum.
#[derive(Debug)]
pub struct Snapshot {
    pub version: u64,
    pub data: Vec<u8>,
    pub checksum: u32,
}

impl Snapshot {
    /// Whether the stored checksum is the CRC-32 of the data.
    pub open spec fn checksum_ok(&self) -> bool {
        self.checksum == crc32_of(self.data@)
    }

    /// A snapshot of `data` at `version`, with the CRC-32 of the data as its
    /// checksum; such a snapshot always passes `verify_checksum`.
    pub fn new(version: u64, data: Vec<u8>) -> (r: Snapshot)
        ensures
            r.version == version,
            r.data@ == data@,
            r.checksum == crc32_of(data@),
            r.checksum_ok(),
    {
        let checksum = crc32_hash(data.as_slice());
        Snapshot { version, data, checksum }
    }

    /// Whether the data still match the stored checksum.
    pub fn verify_checksum(&self) -> (r: bool)
        ensures
            r == self.checksum_ok(),
    {
        crc32_hash(self.data.as_slice()) == self.checksum
    }

    /// The CRC-32 of the data as they are now.
    pub fn actual_checksum(&self) -> (r: u32)
        ensures
            r == crc32_of(self.data@),
    {
        crc32_hash(self.data.as_slice())
    }
}

impl Clone for Snapshot {
    /// A copy with the same version, data and checksum.
    fn clone(&self) -> (r: Snapshot)
        ensures
            r.version == self.version,
            r.data@ == self.data@,
            r.checksum == self.checksum,
    {
        Snapshot { version: self.version, data: crate::types::copy_bytes(self.data.as_slice()), checksum: self.checksum }
    }
}

/// The text of `bytes` read as UTF-8, each invalid sequence replaced by
/// U+FFFD, as `String::from_utf8_lossy` reads it.
pub uninterp spec fn lossy_text(bytes: Seq<u8>) -> Seq<char>;

/// Whether `c` has the Unicode property White_Space, as `char::is_whitespace`
/// documents it: tab to carriage return, space, next line, no-break space,
/// ogham space mark, the spaces from en quad to hair space, the line and
/// paragraph separators, narrow no-break space, medium mathematical space
/// and ideographic space.
pub open spec fn is_white_space(c: char) -> bool {
    let u = c as u32;
    ||| 0x09 <= u <= 0x0D
    ||| u == 0x20
    ||| u == 0x85
    ||| u == 0xA0
    ||| u == 0x1680
    ||| 0x2000 <= u <= 0x200A
    ||| u == 0x2028
    ||| u == 0x2029
    ||| u == 0x202F
    ||| u == 0x205F
    ||| u == 0x3000
}

/// The words of `text`, read from the front, when the word `cur` has been
/// read so far and not yet ended.
pub open spec fn words_after(text: Seq<char>, cur: Seq<char>) -> Seq<Seq<char>>
    decreases text.len(),
{
    if text.len() == 0 {
        if cur.len() == 0 { Seq::empty() } else { seq![cur] }
    } else if is_white_space(text[0]) {
        let rest = words_after(text.subrange(1, text.len() as int), Seq::empty());
        if cur.len() == 0 { rest } else { seq![cur] + rest }
    } else {
        words_after(text.subrange(1, text.len() as int), cur.push(text[0]))
    }
}

/// The words of `text`: its maximal runs of characters without White_Space,
/// in order.
pub open spec fn whitespace_words(text: Seq<char>) -> Seq<Seq<char>> {
    words_after(text, Seq::empty())
}

/// The text of `bytes`, invalid UTF-8 replaced.
///
/// Calls `String::from_utf8_lossy`; the result is the name `lossy_text`.
/// std documents that bytes that are valid UTF-8 come back as the text they
/// encode.
#[verifier::external_body]
fn utf8_lossy(bytes: &[u8]) -> (r: String)
    ensures
        r@ == lossy_text(bytes@),
        valid_utf8(bytes@) ==> r@ == decode_utf8(bytes@),
{
    String::from_utf8_lossy(bytes).into_owned()
}

/// The words of `s`.
///
/// Calls `str::split_whitespace`, documented as splitting at any amount of
/// White_Space and giving the non-empty pieces between, and collects them
/// as strings.
#[verifier::external_body]
fn split_words(s: &str) -> (r: Vec<String>)
    ensures
        r@.map_values(|w: String| w@) == whitespace_words(s@),
{
    s.split_whitespace().map(|w| w.to_string()).collect()
}

/// The UTF-8 bytes of `s`.
fn text_bytes(s: &str) -> (r: Vec<u8>)
    ensures
        r@ == encode_utf8(s@),
{
    copy_bytes(s.as_bytes())
}

/// What a command does to the values `m` at version `v`: the values and
/// version after it and its answer, as text.
pub open spec fn command_step(m: Map<Seq<char>, Seq<u8>>, v: u64, words: Seq<Seq<char>>) -> (Map<Seq<char>, Seq<u8>>, u64, Seq<u8>) {
    if words.len() == 0 {
        (m, v, encode_utf8("ERROR: Empty command"@))
    } else if words[0] == "SET"@ && words.len() == 3 {
        (m.insert(words[1], encode_utf8(words[2])), bumped(v), encode_utf8("OK"@))
    } else if words[0] == "GET"@ && words.len() == 2 {
        (m, v, if m.contains_key(words[1]) { m[words[1]] } else { encode_utf8("NOT_FOUND"@) })
    } else if words[0] == "DEL"@ && words.len() == 2 {
        if m.contains_key(words[1]) {
            (m.remove(words[1]), bumped(v), encode_utf8("OK"@))
        } else {
            (m, v, encode_utf8("NOT_FOUND"@))
        }
    } else {
        (m, v, encode_utf8("ERROR: Invalid command"@))
    }
}

/// The commands `cmds` run in order from the values `m` at version `v`:
/// the values and version after them and their answers.
pub open spec fn commands_run(m: Map<Seq<char>, Seq<u8>>, v: u64, cmds: Seq<Command>) -> (Map<Seq<char>, Seq<u8>>, u64, Seq<Seq<u8>>)
    decreases cmds.len(),
{
    if cmds.len() == 0 {
        (m, v, Seq::empty())
    } else {
        let (m1, v1, answers) = commands_run(m, v, cmds.drop_last());
        let (m2, v2, a) = command_step(m1, v1, whitespace_words(lossy_text(cmds.last().data@)));
        (m2, v2, answers.push(a))
    }
}

/// Running commands in two batches, one after the other, leaves the same
/// values and version, and gives the same answers in the same order, as
/// running them all at once: replicas that apply the same commands in the
/// same order agree, however the commands were grouped into batches.
pub proof fn lemma_run_in_batches(m: Map<Seq<char>, Seq<u8>>, v: u64, a: Seq<Command>, b: Seq<Command>)
    ensures
        ({
            let (m1, v1, x) = commands_run(m, v, a);
            let (m2, v2, y) = commands_run(m1, v1, b);
            commands_run(m, v, a + b) == (m2, v2, x + y)
        }),
    decreases b.len(),
{
    let (m1, v1, x) = commands_run(m, v, a);
    if b.len() == 0 {
        assert(a + b =~= a);
        assert(x + Seq::<Seq<u8>>::empty() =~= x);
    } else {
        lemma_run_in_batches(m, v, a, b.drop_last());
        assert((a + b).drop_last() =~= a + b.drop_last());
        assert((a + b).last() == b.last());
        let (mb, vb, yb) = commands_run(m1, v1, b.drop_last());
        let (m2, v2, y2) = command_step(mb, vb, whitespace_words(lossy_text(b.last().data@)));
        assert(x + yb.push(y2) =~= (x + yb).push(y2));
    }
}

/// Read after write: after `SET key value`, `GET key` answers the value's
/// bytes, and `GET` of any other key answers as before.
pub proof fn lemma_get_after_set(m: Map<Seq<char>, Seq<u8>>, v: u64, key: Seq<char>, value: Seq<char>, other: Seq<char>)
    ensures
        ({
            let (m1, v1, _) = command_step(m, v, seq!["SET"@, key, value]);
            &&& command_step(m1, v1, seq!["GET"@, key]).2 == encode_utf8(value)
            &&& other != key ==> command_step(m1, v1, seq!["GET"@, other]).2 == command_step(m, v, seq!["GET"@, other]).2
        }),
{
    let (m1, v1, _) = command_step(m, v, seq!["SET"@, key, value]);
    assert(m1 == m.insert(key, encode_utf8(value)));
}

/// The entries `s`, each key and value by its view.
pub open spec fn byte_pairs(s: Seq<(String, Vec<u8>)>) -> Seq<(Seq<char>, Seq<u8>)> {
    s.map_values(|e: (String, Vec<u8>)| (e.0@, e.1@))
}

/// A key-value state machine in memory, driven by the commands
/// `SET key value`, `GET key` and `DEL key`.
pub struct InMemoryStateMachine {
    state: StrTable<Vec<u8>>,
    version: u64,
}

impl InMemoryStateMachine {
    /// The values, by key.
    pub closed spec fn values(&self) -> Map<Seq<char>, Seq<u8>> {
        self.state.map().map_values(|b: Vec<u8>| b@)
    }

    /// The number of changes made.
    pub closed spec fn version_view(&self) -> u64 {
        self.version
    }

    /// An empty machine at version 0.
    pub fn new() -> (r: InMemoryStateMachine)
        ensures
            r.values() == Map::<Seq<char>, Seq<u8>>::empty(),
            r.version_view() == 0,
    {
        let r = InMemoryStateMachine { state: StrTable::new(), version: 0 };
        assert(r.values() =~= Map::<Seq<char>, Seq<u8>>::empty());
        r
    }

    /// The version: the number of changes made.
    pub fn version(&self) -> (r: u64)
        ensures
            r == self.version_view(),
    {
        self.version
    }

    /// Runs `command`, read as UTF-8 text split into words: `SET key value`
    /// sets a value and answers `OK`; `GET key` answers the value or
    /// `NOT_FOUND`; `DEL key` removes it and answers `OK`, or answers
    /// `NOT_FOUND`; anything else is answered with an error text. Every
    /// change counts one more version.
    pub fn apply_command(&mut self, command: &Command) -> (r: Result<Vec<u8>, RabiaError>)
        ensures
            ({
                let (m, v, answer) = command_step(old(self).values(), old(self).version_view(),
                    whitespace_words(lossy_text(command.data@)));
                &&& final(self).values() == m
                &&& final(self).version_view() == v
                &&& r matches Ok(a) && a@ == answer
            }),
    {
        let text = utf8_lossy(command.data.as_slice());
        let parts = split_words(text.as_str());
        Ok(self.apply_words(&parts))
    }

    /// Runs the command made of `parts`, its words (see `apply_command`),
    /// and returns the answer.
    pub fn apply_words(&mut self, parts: &Vec<String>) -> (r: Vec<u8>)
        ensures
            ({
                let (m, v, answer) = command_step(old(self).values(), old(self).version_view(),
                    parts@.map_values(|w: String| w@));
                &&& final(self).values() == m
                &&& final(self).version_view() == v
                &&& r@ == answer
            }),
    {
        let ghost words = parts@.map_values(|w: String| w@);
        if parts.len() == 0 {
            return text_bytes("ERROR: Empty command");
        }
        let set_word = "SET".to_owned();
        let get_word = "GET".to_owned();
        let del_word = "DEL".to_owned();
        proof {
            assert(words[0] == parts@[0]@);
        }
        if parts[0] == set_word && parts.len() == 3 {
            let key = parts[1].clone();
            let value = text_bytes(parts[2].as_str());
            proof {
                assert(words[1] == parts@[1]@);
                assert(words[2] == parts@[2]@);
            }
            self.state.insert(key, value);
            self.version = self.version.wrapping_add(1);
            proof {
                assert(self.values() =~= old(self).values().insert(words[1], encode_utf8(words[2])));
            }
            text_bytes("OK")
        } else if parts[0] == get_word && parts.len() == 2 {
            proof {
                assert(words[1] == parts@[1]@);
            }
            match self.state.get(parts[1].as_str()) {
                Some(value) => copy_bytes(value.as_slice()),
                None => text_bytes("NOT_FOUND"),
            }
        } else if parts[0] == del_word && parts.len() == 2 {
            proof {
                assert(words[1] == parts@[1]@);
            }
            match self.state.remove(parts[1].as_str()) {
                Some(_) => {
                    self.version = self.version.wrapping_add(1);
                    proof {
                        assert(self.values() =~= old(self).values().remove(words[1]));
                    }
                    text_bytes("OK")
                },
                None => text_bytes("NOT_FOUND"),
            }
        } else {
            text_bytes("ERROR: Invalid command")
        }
    }

    /// Runs `commands` in order and returns their answers.
    pub fn apply_commands(&mut self, commands: &[Command]) -> (r: Result<Vec<Vec<u8>>, RabiaError>)
        ensures
            ({
                let (m, v, answers) = commands_run(old(self).values(), old(self).version_view(), commands@);
                &&& final(self).values() == m
                &&& final(self).version_view() == v
                &&& r matches Ok(a) && a@.map_values(|x: Vec<u8>| x@) == answers
            }),
    {
        let mut answers: Vec<Vec<u8>> = Vec::new();
        let mut i: usize = 0;
        while i < commands.len()
            invariant
                i <= commands@.len(),
                ({
                    let (m, v, seen) = commands_run(old(self).values(), old(self).version_view(), commands@.take(i as int));
                    &&& self.values() == m
                    &&& self.version_view() == v
                    &&& answers@.map_values(|x: Vec<u8>| x@) == seen
                }),
            decreases commands@.len() - i,
        {
            proof {
                assert(commands@.take(i + 1).drop_last() =~= commands@.take(i as int));
                assert(commands@.take(i + 1).last() == commands@[i as int]);
            }
            let a = self.apply_command(&commands[i])?;
            let ghost before = answers@;
            answers.push(a);
            proof {
                assert(answers@.map_values(|x: Vec<u8>| x@) =~= before.map_values(|x: Vec<u8>| x@).push(a@));
            }
            i = i + 1;
        }
        assert(commands@.take(commands@.len() as int) =~= commands@);
        Ok(answers)
    }

    /// The entries, each key with its value, in the order first set.
    pub fn entries(&self) -> (r: Vec<(String, Vec<u8>)>)
        ensures
            r@.len() == self.values().len(),
            forall|i: int| 0 <= i < r@.len() ==> self.values().contains_key((#[trigger] r@[i]).0@)
                && self.values()[r@[i].0@] == r@[i].1@,
            forall|i: int, j: int| 0 <= i < j < r@.len() ==> (#[trigger] r@[i]).0@ != (#[trigger] r@[j]).0@,
    {
        let n = self.state.len();
        let mut out: Vec<(String, Vec<u8>)> = Vec::new();
        let mut i: usize = 0;
        while i < n
            invariant
                n == self.state.pairs().len(),
                crate::table::keys_unique(self.state.pairs()),
                i <= n,
                out@.len() == i,
                forall|j: int| 0 <= j < i ==> (#[trigger] out@[j]).0@ == self.state.pairs()[j].0
                    && out@[j].1@ == self.state.pairs()[j].1@,
            decreases n - i,
        {
            let k = self.state.key_at(i).clone();
            let v = copy_bytes(self.state.value_at(i).as_slice());
            out.push((k, v));
            i = i + 1;
        }
        proof {
            crate::table::lemma_entries_len(self.state.pairs());
            assert(self.values().dom() =~= self.state.map().dom());
            assert forall|i: int| 0 <= i < out@.len() implies self.values().contains_key((#[trigger] out@[i]).0@)
                && self.values()[out@[i].0@] == out@[i].1@ by {
                crate::table::lemma_entries_at(self.state.pairs(), i);
            }
        }
        out
    }

    /// Checks `snapshot` before its data is restored: refused with a
    /// checksum mismatch, giving the stored and the actual checksum, when
    /// its data do not match its checksum.
    pub fn check_snapshot(snapshot: &Snapshot) -> (r: Result<(), RabiaError>)
        ensures
            snapshot.checksum_ok() ==> r is Ok,
            !snapshot.checksum_ok() ==> (r matches Err(RabiaError::ChecksumMismatch { expected, actual })
                && expected == snapshot.checksum && actual == crc32_of(snapshot.data@)),
    {
        if !snapshot.verify_checksum() {
            return Err(RabiaError::ChecksumMismatch {
                expected: snapshot.checksum,
                actual: snapshot.actual_checksum(),
            });
        }
        Ok(())
    }

    /// Replaces the values by `entries` (a later entry for a key wins) and
    /// the version by `version`.
    pub fn restore_entries(&mut self, entries: Vec<(String, Vec<u8>)>, version: u64)
        ensures
            final(self).version_view() == version,
            final(self).values() == entries_map(byte_pairs(entries@)),
    {
        let mut table: StrTable<Vec<u8>> = StrTable::new();
        let mut i: usize = 0;
        proof {
            assert(table.map().map_values(|b: Vec<u8>| b@) =~= entries_map(byte_pairs(entries@.take(0))));
        }
        while i < entries.len()
            invariant
                i <= entries@.len(),
                table.map().map_values(|b: Vec<u8>| b@) == entries_map(byte_pairs(entries@.take(i as int))),
            decreases entries@.len() - i,
        {
            let k = entries[i].0.clone();
            let v = copy_bytes(entries[i].1.as_slice());
            let ghost before = table.map();
            table.insert(k, v);
            proof {
                let p = byte_pairs(entries@.take(i + 1));
                assert(p.drop_last() =~= byte_pairs(entries@.take(i as int)));
                assert(p.last() == (entries@[i as int].0@, entries@[i as int].1@));
                assert(table.map().map_values(|b: Vec<u8>| b@)
                    =~= before.map_values(|b: Vec<u8>| b@).insert(entries@[i as int].0@, entries@[i as int].1@));
            }
            i = i + 1;
        }
        assert(entries@.take(entries@.len() as int) =~= entries@);
        self.state = table;
        self.version = version;
    }
}

impl Default for InMemoryStateMachine {
    fn default() -> (r: InMemoryStateMachine)
        ensures
            r.values() == Map::<Seq<char>, Seq<u8>>::empty(),
            r.version_view() == 0,
    {
        InMemoryStateMachine::new()
    }
}

} // verus!
