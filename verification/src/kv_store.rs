//! The key-value store: string keys, string values with metadata, limits on
//! keys and values, change notifications, statistics and snapshots.
//!
//! The store records the notifications of its changes in an outbox, in the
//! order of the changes; whoever runs the store delivers them.

use vstd::prelude::*;
use vstd::utf8::encode_utf8;
use crate::str_table::StrTable;
use crate::table::{entries_map, keys_unique};
use crate::kv_operations::{KVOperation, KVResult, StoreError};
use crate::kv_notifications::{ChangeNotification, ChangeType};
use crate::engine_state::bumped;
use crate::clock::unix_time_millis;
use crate::text::{around_number, decimal_text, str_starts_with};

verus! {

/// Most bytes a key may have.
pub const MAX_KEY_BYTES: usize = 256;

/// The number of UTF-8 bytes of `t`.
pub open spec fn byte_len(t: Seq<char>) -> nat {
    encode_utf8(t).len()
}

/// `n` plus one, wrapping at `usize::MAX`.
pub open spec fn bumped_usize(n: usize) -> usize {
    if n == usize::MAX { 0 } else { (n + 1) as usize }
}

/// Limits and switches of a store.
#[derive(Debug, Clone)]
pub struct KVStoreConfig {
    /// Maximum number of keys to store
    pub max_keys: usize,
    /// Enable change notifications
    pub enable_notifications: bool,
    /// Snapshot frequency (number of operations)
    pub snapshot_frequency: usize,
    /// Enable compression for large values
    pub enable_compression: bool,
    /// Maximum value size in bytes
    pub max_value_size: usize,
}

impl Default for KVStoreConfig {
    fn default() -> (r: KVStoreConfig)
        ensures
            r.max_keys == 1_000_000,
            r.enable_notifications,
            r.snapshot_frequency == 10_000,
            !r.enable_compression,
            r.max_value_size == 1024 * 1024,
    {
        KVStoreConfig {
            max_keys: 1_000_000,
            enable_notifications: true,
            snapshot_frequency: 10_000,
            enable_compression: false,
            max_value_size: 1024 * 1024,
        }
    }
}

/// A stored value with its metadata.
#[derive(Debug)]
pub struct ValueEntry {
    pub value: String,
    pub version: u64,
    pub created_at: u64,
    pub updated_at: u64,
    pub size: usize,
}

impl Clone for ValueEntry {
    fn clone(&self) -> (r: ValueEntry)
        ensures
            r == *self,
    {
        ValueEntry {
            value: self.value.clone(),
            version: self.version,
            created_at: self.created_at,
            updated_at: self.updated_at,
            size: self.size,
        }
    }
}

impl ValueEntry {
    /// A first version of `value`, created and updated at `now`.
    pub fn new_at(value: String, now: u64) -> (r: ValueEntry)
        ensures
            r.value@ == value@,
            r.version == 1,
            r.created_at == now,
            r.updated_at == now,
            r.size == byte_len(value@),
    {
        let size = value.as_str().as_bytes().len();
        ValueEntry { value, version: 1, created_at: now, updated_at: now, size }
    }

    /// A first version of `value`, stamped with the present time.
    pub fn new(value: String) -> (r: ValueEntry)
        ensures
            r.value@ == value@,
            r.version == 1,
            r.created_at == r.updated_at,
            r.size == byte_len(value@),
    {
        ValueEntry::new_at(value, unix_time_millis())
    }

    /// Replaces the value by `new_value` at time `now`; the version counts
    /// one more (wrapping at `u64::MAX`).
    pub fn update_at(&mut self, new_value: String, now: u64)
        ensures
            final(self).value@ == new_value@,
            final(self).version == bumped(old(self).version),
            final(self).created_at == old(self).created_at,
            final(self).updated_at == now,
            final(self).size == byte_len(new_value@),
    {
        self.size = new_value.as_str().as_bytes().len();
        self.value = new_value;
        self.version = self.version.wrapping_add(1);
        self.updated_at = now;
    }

    /// Replaces the value by `new_value`, stamped with the present time.
    pub fn update(&mut self, new_value: String)
        ensures
            final(self).value@ == new_value@,
            final(self).version == bumped(old(self).version),
            final(self).created_at == old(self).created_at,
            final(self).size == byte_len(new_value@),
    {
        let now = unix_time_millis();
        self.update_at(new_value, now);
    }
}

/// Counters of a store.
#[derive(Debug, Clone, Copy, Default)]
pub struct StoreStats {
    pub total_keys: usize,
    pub total_operations: u64,
    pub memory_usage_bytes: usize,
    pub last_snapshot_at: u64,
    pub operations_since_snapshot: usize,
}

/// The store's entries at one moment, with the version, the time and a
/// checksum of the entries.
#[derive(Debug, Clone)]
pub struct StoreSnapshot {
    pub data: Vec<(String, ValueEntry)>,
    pub version: u64,
    pub created_at: u64,
    pub checksum: u64,
}

/// Why an operation is refused.
#[derive(Debug, Clone, Copy, PartialEq, Eq, Structural)]
pub enum StoreFault {
    KeyEmpty,
    KeyTooLong,
    ValueTooLarge,
    Full,
}

/// `e` is the error that reports `f`.
pub open spec fn reports(e: StoreError, f: StoreFault) -> bool {
    match f {
        StoreFault::KeyEmpty => e matches StoreError::InvalidKey(m) && m@ == "Key cannot be empty"@,
        StoreFault::KeyTooLong => e matches StoreError::InvalidKey(m) && m@ == "Key too long"@,
        StoreFault::ValueTooLarge => e is ValueTooLarge,
        StoreFault::Full => e is StoreFull,
    }
}

/// What is wrong with key `k`, if anything: it is empty, or longer than
/// `MAX_KEY_BYTES` bytes.
pub open spec fn key_fault(k: Seq<char>) -> Option<StoreFault> {
    if k.len() == 0 {
        Some(StoreFault::KeyEmpty)
    } else if byte_len(k) > MAX_KEY_BYTES {
        Some(StoreFault::KeyTooLong)
    } else {
        None
    }
}

/// What refuses setting `k` to `v` in the map `m`: a bad key, a value over
/// `max_value` bytes, or a new key when `m` already has `max_keys` keys.
pub open spec fn set_fault(m: Map<Seq<char>, Seq<char>>, k: Seq<char>, v: Seq<char>, max_keys: nat, max_value: nat) -> Option<StoreFault> {
    if key_fault(k) is Some {
        key_fault(k)
    } else if byte_len(v) > max_value {
        Some(StoreFault::ValueTooLarge)
    } else if !m.contains_key(k) && m.len() >= max_keys {
        Some(StoreFault::Full)
    } else {
        None
    }
}

/// The values of the entries of `m`.
pub open spec fn values_of(m: Map<Seq<char>, ValueEntry>) -> Map<Seq<char>, Seq<char>> {
    m.map_values(|e: ValueEntry| e.value@)
}

/// `Success` when `found`, else `NotFound`.
pub open spec fn found_result(found: bool) -> KVResult {
    if found { KVResult::Success } else { KVResult::NotFound }
}

/// One operation on the values `m`: the values after it, its result, and
/// the fault that refuses it, if any (then the values are unchanged).
pub open spec fn op_step(m: Map<Seq<char>, Seq<char>>, op: KVOperation, max_keys: nat, max_value: nat) -> (Map<Seq<char>, Seq<char>>, KVResult, Option<StoreFault>) {
    match op {
        KVOperation::Put { key, value } => match set_fault(m, key@, value@, max_keys, max_value) {
            Some(f) => (m, KVResult::Success, Some(f)),
            None => (m.insert(key@, value@), KVResult::Success, None),
        },
        KVOperation::Get { key } => match key_fault(key@) {
            Some(f) => (m, KVResult::Success, Some(f)),
            None => (m, found_result(m.contains_key(key@)), None),
        },
        KVOperation::Delete { key } => match key_fault(key@) {
            Some(f) => (m, KVResult::Success, Some(f)),
            None => (m.remove(key@), found_result(m.contains_key(key@)), None),
        },
        KVOperation::Exists { key } => match key_fault(key@) {
            Some(f) => (m, KVResult::Success, Some(f)),
            None => (m, found_result(m.contains_key(key@)), None),
        },
    }
}

/// The operations `ops` run in order on the values `m`, stopping at the
/// first refused one: the values after the run, the results of the
/// operations that ran, and the fault that stopped the run, if any.
pub open spec fn batch_run(m: Map<Seq<char>, Seq<char>>, ops: Seq<KVOperation>, max_keys: nat, max_value: nat) -> (Map<Seq<char>, Seq<char>>, Seq<KVResult>, Option<StoreFault>)
    decreases ops.len(),
{
    if ops.len() == 0 {
        (m, Seq::empty(), None)
    } else {
        let (m1, rs, f) = batch_run(m, ops.drop_last(), max_keys, max_value);
        if f is Some {
            (m1, rs, f)
        } else {
            let (m2, r, f2) = op_step(m1, ops.last(), max_keys, max_value);
            if f2 is Some {
                (m1, rs, f2)
            } else {
                (m2, rs.push(r), None)
            }
        }
    }
}

/// The notification that `op`, run without fault on the values `m`,
/// records when it changes a value (a put, or a delete of a present key):
/// its key, change, old value and new value.
pub open spec fn op_notice(m: Map<Seq<char>, Seq<char>>, op: KVOperation) -> Option<(Seq<char>, ChangeType, Option<Seq<char>>, Option<Seq<char>>)> {
    match op {
        KVOperation::Put { key, value } => Some((
            key@,
            if m.contains_key(key@) { ChangeType::Updated } else { ChangeType::Created },
            if m.contains_key(key@) { Some(m[key@]) } else { None },
            Some(value@),
        )),
        KVOperation::Delete { key } => if m.contains_key(key@) {
            Some((key@, ChangeType::Deleted, Some(m[key@]), None))
        } else {
            None
        },
        _ => None,
    }
}

/// The notifications of the run of `ops` on `m`, in order, up to the first
/// refused operation.
pub open spec fn batch_notices(m: Map<Seq<char>, Seq<char>>, ops: Seq<KVOperation>, max_keys: nat, max_value: nat)
    -> Seq<(Seq<char>, ChangeType, Option<Seq<char>>, Option<Seq<char>>)>
    decreases ops.len(),
{
    if ops.len() == 0 {
        Seq::empty()
    } else {
        let earlier = batch_notices(m, ops.drop_last(), max_keys, max_value);
        let m1 = batch_run(m, ops.drop_last(), max_keys, max_value).0;
        match op_notice(m1, ops.last()) {
            Some(n) => earlier.push(n),
            None => earlier,
        }
    }
}

/// The notifications of a batch, from `start` on, are those of `ns`, with
/// versions counting up from `v`.
pub open spec fn notices_from(outbox: Seq<ChangeNotification>, start: int, ns: Seq<(Seq<char>, ChangeType, Option<Seq<char>>, Option<Seq<char>>)>, v: u64) -> bool {
    &&& outbox.len() == start + ns.len()
    &&& forall|k: int| 0 <= k < ns.len() ==>
        notice(outbox[start + k], (#[trigger] ns[k]).0, ns[k].1, ns[k].2, ns[k].3, bumped_times(v, k as nat))
}

/// `v` bumped `n` times.
pub open spec fn bumped_times(v: u64, n: nat) -> u64
    decreases n,
{
    if n == 0 { v } else { bumped(bumped_times(v, (n - 1) as nat)) }
}

/// `v` bumped `n` times, wrapping at `usize::MAX`.
pub open spec fn bumped_usize_times(v: usize, n: nat) -> usize
    decreases n,
{
    if n == 0 { v } else { bumped_usize(bumped_usize_times(v, (n - 1) as nat)) }
}

/// The text of an optional string.
pub open spec fn opt_text(o: Option<String>) -> Option<Seq<char>> {
    match o {
        Some(s) => Some(s@),
        None => None,
    }
}

/// The value stored under `key`, if any.
pub open spec fn lookup(values: Map<Seq<char>, Seq<char>>, key: Seq<char>) -> Option<Seq<char>> {
    if values.contains_key(key) { Some(values[key]) } else { None }
}

/// Read after write: once `set` has stored `value` under `key`, `get` of
/// `key` answers `value`; once `delete` has removed `key`, `get` of it
/// answers nothing; either way `get` of any other key answers as before.
pub proof fn lemma_read_after_write(values: Map<Seq<char>, Seq<char>>, key: Seq<char>, value: Seq<char>, other: Seq<char>)
    ensures
        lookup(values.insert(key, value), key) == Some(value),
        lookup(values.remove(key), key) is None,
        other != key ==> lookup(values.insert(key, value), other) == lookup(values, other),
        other != key ==> lookup(values.remove(key), other) == lookup(values, other),
{
}

/// `n` reports a change of `key` of kind `ct` from `old` to `new`, with
/// version `version`.
pub open spec fn notice(n: ChangeNotification, key: Seq<char>, ct: ChangeType, old: Option<Seq<char>>, new: Option<Seq<char>>, version: u64) -> bool {
    &&& n.key@ == key
    &&& n.change_type == ct
    &&& opt_text(n.old_value) == old
    &&& opt_text(n.new_value) == new
    &&& n.version == version
}

/// The texts of the strings `ks`.
pub open spec fn key_texts(ks: Seq<String>) -> Seq<Seq<char>> {
    ks.map_values(|k: String| k@)
}

/// The keys of the entries `ps`.
pub open spec fn pair_keys(ps: Seq<(Seq<char>, ValueEntry)>) -> Seq<Seq<char>> {
    ps.map_values(|e: (Seq<char>, ValueEntry)| e.0)
}

/// The text of an optional string slice.
pub open spec fn opt_str_text(o: Option<&str>) -> Option<Seq<char>> {
    match o {
        Some(s) => Some(s@),
        None => None,
    }
}

/// The test that keeps the entries whose key begins with `prefix`, or all
/// entries when there is none.
pub open spec fn prefix_test(prefix: Option<Seq<char>>) -> spec_fn((Seq<char>, ValueEntry)) -> bool {
    |e: (Seq<char>, ValueEntry)| match prefix {
        Some(p) => p.is_prefix_of(e.0),
        None => true,
    }
}

/// The entries of a snapshot, each key by its text.
pub open spec fn snapshot_pairs(s: Seq<(String, ValueEntry)>) -> Seq<(Seq<char>, ValueEntry)> {
    s.map_values(|e: (String, ValueEntry)| (e.0@, e.1))
}

/// The eight bytes of `v`, least significant first.
pub open spec fn le_bytes(v: u64) -> Seq<u8> {
    Seq::new(8, |i: int| ((v >> ((8 * i) as u64)) & 0xffu64) as u8)
}

/// The bytes that the checksum of a snapshot covers: for each entry in
/// order, the key's UTF-8 bytes and 0xff, the value's UTF-8 bytes and 0xff,
/// and the version's eight bytes, least significant first.
pub open spec fn checksum_input(pairs: Seq<(Seq<char>, ValueEntry)>) -> Seq<u8>
    decreases pairs.len(),
{
    if pairs.len() == 0 {
        Seq::empty()
    } else {
        let e = pairs.last();
        checksum_input(pairs.drop_last()) + encode_utf8(e.0) + seq![0xffu8] + encode_utf8(e.1.value@)
            + seq![0xffu8] + le_bytes(e.1.version)
    }
}

/// `a + b`, capped at `usize::MAX`.
pub open spec fn capped_add(a: usize, b: nat) -> usize {
    if a + b > usize::MAX { usize::MAX } else { (a + b) as usize }
}

/// The estimate of the bytes the entries `pairs` take, summed in order
/// with each addition capped at `usize::MAX`: each key's UTF-8 bytes, each
/// entry's recorded size, and `entry_size` for each entry.
pub open spec fn memory_estimate(pairs: Seq<(Seq<char>, ValueEntry)>, entry_size: usize) -> usize
    decreases pairs.len(),
{
    if pairs.len() == 0 {
        0
    } else {
        let e = pairs.last();
        capped_add(
            capped_add(capped_add(memory_estimate(pairs.drop_last(), entry_size), byte_len(e.0)), e.1.size as nat),
            entry_size as nat,
        )
    }
}

/// The 64-bit hash that std's `DefaultHasher` gives after being fed
/// `bytes`.
pub uninterp spec fn default_hash(bytes: Seq<u8>) -> u64;

/// The hash of `bytes` by a fresh `DefaultHasher`.
///
/// Calls `DefaultHasher::new`, `Hasher::write` and `Hasher::finish`. std
/// documents that every `DefaultHasher` made by `new` is the same, so the
/// result depends on the bytes alone; it is the name `default_hash`.
#[verifier::external_body]
fn hash_bytes(bytes: &[u8]) -> (r: u64)
    ensures
        r == default_hash(bytes@),
{
    let mut hasher = std::collections::hash_map::DefaultHasher::new();
    std::hash::Hasher::write(&mut hasher, bytes);
    std::hash::Hasher::finish(&hasher)
}

/// The checksum that a snapshot of the entries `pairs` carries.
pub open spec fn entries_checksum(pairs: Seq<(Seq<char>, ValueEntry)>) -> u64 {
    default_hash(checksum_input(pairs))
}

/// A snapshot restores what it was made from: a snapshot whose entries are
/// those of `store` and whose checksum is theirs, as `create_snapshot`
/// makes it, passes the check of `restore_snapshot`, and restoring it
/// brings back exactly the entries and values of `store`.
pub proof fn lemma_snapshot_roundtrip(store: KVStore, snapshot: StoreSnapshot)
    requires
        snapshot_pairs(snapshot.data@) == store.pairs(),
        snapshot.checksum == entries_checksum(snapshot_pairs(snapshot.data@)),
    ensures
        snapshot.checksum == entries_checksum(store.pairs()),
        entries_map(snapshot_pairs(snapshot.data@)) == store.entries(),
        values_of(entries_map(snapshot_pairs(snapshot.data@))) == store.values(),
{
}

/// Appends the eight bytes of `v`, least significant first.
fn push_le_bytes(out: &mut Vec<u8>, v: u64)
    ensures
        final(out)@ == old(out)@ + le_bytes(v),
{
    let ghost start = out@;
    let mut i: u64 = 0;
    while i < 8
        invariant
            i <= 8,
            out@.len() == start.len() + i,
            out@.subrange(0, start.len() as int) == start,
            forall|j: int| 0 <= j < i ==> #[trigger] out@[start.len() + j] == le_bytes(v)[j],
        decreases 8 - i,
    {
        let b = ((v >> (8 * i)) & 0xff) as u8;
        let ghost before = out@;
        out.push(b);
        proof {
            assert(out@.subrange(0, start.len() as int) =~= before.subrange(0, start.len() as int));
            assert forall|j: int| 0 <= j < i + 1 implies #[trigger] out@[start.len() + j] == le_bytes(v)[j] by {
                if j < i {
                    assert(out@[start.len() + j] == before[start.len() + j]);
                }
            }
        }
        i = i + 1;
    }
    assert forall|k: int| 0 <= k < out@.len() implies #[trigger] out@[k] == (start + le_bytes(v))[k] by {
        if k >= start.len() {
            let j = k - start.len();
            assert(out@[start.len() + j] == le_bytes(v)[j]);
        } else {
            assert(out@.subrange(0, start.len() as int)[k] == start[k]);
        }
    }
    assert(out@ =~= start + le_bytes(v));
}

/// Appends the bytes of `s`.
fn push_str_bytes(out: &mut Vec<u8>, s: &str)
    ensures
        final(out)@ == old(out)@ + encode_utf8(s@),
{
    let bytes = s.as_bytes();
    let ghost start = out@;
    out.extend_from_slice(bytes);
    assert(out@ =~= start + encode_utf8(s@));
}

/// The checksum of `entries`, in order.
fn calculate_checksum(entries: &Vec<(String, ValueEntry)>) -> (r: u64)
    ensures
        r == entries_checksum(snapshot_pairs(entries@)),
{
    let mut bytes: Vec<u8> = Vec::new();
    let mut i: usize = 0;
    while i < entries.len()
        invariant
            i <= entries@.len(),
            bytes@ == checksum_input(snapshot_pairs(entries@.take(i as int))),
        decreases entries@.len() - i,
    {
        let e = &entries[i];
        push_str_bytes(&mut bytes, e.0.as_str());
        bytes.push(0xff);
        push_str_bytes(&mut bytes, e.1.value.as_str());
        bytes.push(0xff);
        push_le_bytes(&mut bytes, e.1.version);
        proof {
            let p = snapshot_pairs(entries@.take(i + 1));
            assert(p.drop_last() =~= snapshot_pairs(entries@.take(i as int)));
            assert(p.last() == (e.0@, e.1));
            assert(bytes@ =~= checksum_input(p));
        }
        i = i + 1;
    }
    assert(entries@.take(entries@.len() as int) =~= entries@);
    hash_bytes(bytes.as_slice())
}

/// The key-value store.
pub struct KVStore {
    config: KVStoreConfig,
    data: StrTable<ValueEntry>,
    stats: StoreStats,
    version: u64,
    outbox: Vec<ChangeNotification>,
}

impl KVStore {
    /// The configuration.
    pub closed spec fn config_view(&self) -> KVStoreConfig {
        self.config
    }

    /// The entries, each key by its text, in order.
    pub closed spec fn pairs(&self) -> Seq<(Seq<char>, ValueEntry)> {
        self.data.pairs()
    }

    /// The entries as a map from key to entry.
    pub open spec fn entries(&self) -> Map<Seq<char>, ValueEntry> {
        entries_map(self.pairs())
    }

    /// The stored values.
    pub open spec fn values(&self) -> Map<Seq<char>, Seq<char>> {
        values_of(self.entries())
    }

    /// The counters.
    pub closed spec fn stats_view(&self) -> StoreStats {
        self.stats
    }

    /// The version the next notification or snapshot gets.
    pub closed spec fn version(&self) -> u64 {
        self.version
    }

    /// The notifications not yet taken, oldest first.
    pub closed spec fn outbox(&self) -> Seq<ChangeNotification> {
        self.outbox@
    }

    /// Limit on keys.
    pub open spec fn max_keys(&self) -> nat {
        self.config_view().max_keys as nat
    }

    /// Limit on value bytes.
    pub open spec fn max_value(&self) -> nat {
        self.config_view().max_value_size as nat
    }

    /// The operation counters after one more operation.
    pub open spec fn counted(before: StoreStats, after: StoreStats) -> bool {
        &&& after.total_operations == bumped(before.total_operations)
        &&& after.operations_since_snapshot == bumped_usize(before.operations_since_snapshot)
        &&& after.total_keys == before.total_keys
        &&& after.memory_usage_bytes == before.memory_usage_bytes
        &&& after.last_snapshot_at == before.last_snapshot_at
    }

    /// `after` is `before` with `n` more operations counted.
    pub open spec fn counted_times(before: StoreStats, after: StoreStats, n: nat) -> bool {
        &&& after.total_operations == bumped_times(before.total_operations, n)
        &&& after.operations_since_snapshot == bumped_usize_times(before.operations_since_snapshot, n)
        &&& after.total_keys == before.total_keys
        &&& after.memory_usage_bytes == before.memory_usage_bytes
        &&& after.last_snapshot_at == before.last_snapshot_at
    }

    /// An empty store with `config`.
    pub fn new(config: KVStoreConfig) -> (r: Result<KVStore, StoreError>)
        ensures
            r matches Ok(s) && s.config_view() == config && s.pairs().len() == 0
                && s.values() == Map::<Seq<char>, Seq<char>>::empty()
                && s.version() == 0 && s.outbox().len() == 0
                && s.stats_view().total_operations == 0 && s.stats_view().operations_since_snapshot == 0
                && s.stats_view().last_snapshot_at == 0,
    {
        let store = KVStore {
            config,
            data: StrTable::new(),
            stats: StoreStats { total_keys: 0, total_operations: 0, memory_usage_bytes: 0, last_snapshot_at: 0, operations_since_snapshot: 0 },
            version: 0,
            outbox: Vec::new(),
        };
        assert(store.values() =~= Map::<Seq<char>, Seq<char>>::empty());
        Ok(store)
    }

    fn validate_key(key: &str) -> (r: Result<(), StoreError>)
        ensures
            match key_fault(key@) {
                Some(f) => r matches Err(e) && reports(e, f),
                None => r is Ok,
            },
    {
        if key.is_empty() {
            return Err(StoreError::InvalidKey("Key cannot be empty".to_owned()));
        }
        if key.as_bytes().len() > MAX_KEY_BYTES {
            return Err(StoreError::InvalidKey("Key too long".to_owned()));
        }
        Ok(())
    }

    fn count_operation(&mut self)
        ensures
            KVStore::counted(old(self).stats_view(), final(self).stats_view()),
            final(self).config_view() == old(self).config_view(),
            final(self).pairs() == old(self).pairs(),
            final(self).version() == old(self).version(),
            final(self).outbox() == old(self).outbox(),
    {
        self.stats.total_operations = self.stats.total_operations.wrapping_add(1);
        self.stats.operations_since_snapshot = self.stats.operations_since_snapshot.wrapping_add(1);
    }

    fn next_version(&mut self) -> (r: u64)
        ensures
            r == old(self).version(),
            final(self).version() == bumped(old(self).version()),
            final(self).config_view() == old(self).config_view(),
            final(self).pairs() == old(self).pairs(),
            final(self).stats_view() == old(self).stats_view(),
            final(self).outbox() == old(self).outbox(),
    {
        let v = self.version;
        self.version = self.version.wrapping_add(1);
        v
    }

    proof fn lemma_values_len(&self)
        requires
            keys_unique(self.pairs()),
        ensures
            self.values().len() == self.pairs().len(),
            self.values().dom() == self.entries().dom(),
    {
        crate::table::lemma_entries_len(self.pairs());
        assert(self.values().dom() =~= self.entries().dom());
    }

    /// Sets `key` to `value`. A bad key, a value over the limit, or a new
    /// key in a full store is refused with its error and changes nothing.
    /// Otherwise the value is stored (a present key gets a new version of
    /// its entry, a new key a first one), the operation is counted and, when
    /// notifications are on, a `Created` or `Updated` notification is
    /// recorded with the next version.
    pub fn set(&mut self, key: &str, value: &str) -> (r: Result<KVResult, StoreError>)
        ensures
            final(self).config_view() == old(self).config_view(),
            match set_fault(old(self).values(), key@, value@, old(self).max_keys(), old(self).max_value()) {
                Some(f) => {
                    &&& r matches Err(e) && reports(e, f)
                    &&& final(self).pairs() == old(self).pairs()
                    &&& final(self).stats_view() == old(self).stats_view()
                    &&& final(self).version() == old(self).version()
                    &&& final(self).outbox() == old(self).outbox()
                },
                None => {
                    &&& r matches Ok(KVResult::Success)
                    &&& final(self).values() == old(self).values().insert(key@, value@)
                    &&& (old(self).entries().contains_key(key@) ==> {
                        let e = final(self).entries()[key@];
                        let o = old(self).entries()[key@];
                        e.version == bumped(o.version) && e.created_at == o.created_at
                    })
                    &&& (!old(self).entries().contains_key(key@) ==> final(self).entries()[key@].version == 1)
                    &&& final(self).entries()[key@].size == byte_len(value@)
                    &&& final(self).entries().remove(key@) == old(self).entries().remove(key@)
                    &&& KVStore::counted(old(self).stats_view(), final(self).stats_view())
                    &&& if old(self).config_view().enable_notifications {
                        &&& final(self).outbox().len() == old(self).outbox().len() + 1
                        &&& final(self).outbox().drop_last() == old(self).outbox()
                        &&& notice(final(self).outbox().last(), key@,
                            if old(self).values().contains_key(key@) { ChangeType::Updated } else { ChangeType::Created },
                            if old(self).values().contains_key(key@) { Some(old(self).values()[key@]) } else { None },
                            Some(value@), old(self).version())
                        &&& final(self).version() == bumped(old(self).version())
                    } else {
                        &&& final(self).outbox() == old(self).outbox()
                        &&& final(self).version() == old(self).version()
                    }
                },
            },
    {
        let n = self.data.len();
        proof { self.lemma_values_len(); }
        Self::validate_key(key)?;
        if value.as_bytes().len() > self.config.max_value_size {
            return Err(StoreError::ValueTooLarge);
        }
        let now = unix_time_millis();
        let old_value: Option<String> = match self.data.get(key) {
            Some(entry) => {
                let mut updated = entry.clone();
                let old = updated.value.clone();
                updated.update_at(value.to_owned(), now);
                self.data.insert(key.to_owned(), updated);
                Some(old)
            },
            None => {
                if n >= self.config.max_keys {
                    return Err(StoreError::StoreFull);
                }
                self.data.insert(key.to_owned(), ValueEntry::new_at(value.to_owned(), now));
                None
            },
        };
        proof {
            assert(self.values() =~= old(self).values().insert(key@, value@));
            assert(self.entries().remove(key@) =~= old(self).entries().remove(key@));
        }
        self.count_operation();
        if self.config.enable_notifications {
            let existed = old_value.is_some();
            let version = self.next_version();
            let notification = ChangeNotification {
                key: key.to_owned(),
                change_type: if existed { ChangeType::Updated } else { ChangeType::Created },
                old_value,
                new_value: Some(value.to_owned()),
                version,
                timestamp: unix_time_millis(),
            };
            self.outbox.push(notification);
            proof {
                assert(self.outbox@.drop_last() =~= old(self).outbox@);
            }
        }
        Ok(KVResult::Success)
    }

    /// The value of `key`, after checking the key; the operation is
    /// counted.
    pub fn get(&mut self, key: &str) -> (r: Result<Option<String>, StoreError>)
        ensures
            final(self).config_view() == old(self).config_view(),
            final(self).pairs() == old(self).pairs(),
            final(self).version() == old(self).version(),
            final(self).outbox() == old(self).outbox(),
            match key_fault(key@) {
                Some(f) => r matches Err(e) && reports(e, f) && final(self).stats_view() == old(self).stats_view(),
                None => {
                    &&& r matches Ok(o) && opt_text(o) == lookup(old(self).values(), key@)
                    &&& KVStore::counted(old(self).stats_view(), final(self).stats_view())
                },
            },
    {
        Self::validate_key(key)?;
        let result = match self.data.get(key) {
            Some(entry) => Some(entry.value.clone()),
            None => None,
        };
        self.count_operation();
        Ok(result)
    }

    /// The entry of `key` with its metadata, after checking the key; the
    /// operation is counted.
    pub fn get_with_metadata(&mut self, key: &str) -> (r: Result<Option<ValueEntry>, StoreError>)
        ensures
            final(self).config_view() == old(self).config_view(),
            final(self).pairs() == old(self).pairs(),
            final(self).version() == old(self).version(),
            final(self).outbox() == old(self).outbox(),
            match key_fault(key@) {
                Some(f) => r matches Err(e) && reports(e, f) && final(self).stats_view() == old(self).stats_view(),
                None => {
                    &&& r matches Ok(o) && o == if old(self).entries().contains_key(key@) {
                        Some(old(self).entries()[key@])
                    } else {
                        None::<ValueEntry>
                    }
                    &&& KVStore::counted(old(self).stats_view(), final(self).stats_view())
                },
            },
    {
        Self::validate_key(key)?;
        let result = match self.data.get(key) {
            Some(entry) => Some(entry.clone()),
            None => None,
        };
        self.count_operation();
        Ok(result)
    }

    /// Deletes `key`, after checking it: `Success` when it was present,
    /// else `NotFound`. The operation is counted and, when notifications
    /// are on and the key was present, a `Deleted` notification is recorded
    /// with the next version.
    pub fn delete(&mut self, key: &str) -> (r: Result<KVResult, StoreError>)
        ensures
            final(self).config_view() == old(self).config_view(),
            match key_fault(key@) {
                Some(f) => {
                    &&& r matches Err(e) && reports(e, f)
                    &&& final(self).pairs() == old(self).pairs()
                    &&& final(self).stats_view() == old(self).stats_view()
                    &&& final(self).version() == old(self).version()
                    &&& final(self).outbox() == old(self).outbox()
                },
                None => {
                    &&& r matches Ok(res) && res == found_result(old(self).values().contains_key(key@))
                    &&& final(self).values() == old(self).values().remove(key@)
                    &&& final(self).entries() == old(self).entries().remove(key@)
                    &&& KVStore::counted(old(self).stats_view(), final(self).stats_view())
                    &&& if old(self).config_view().enable_notifications && old(self).values().contains_key(key@) {
                        &&& final(self).outbox().len() == old(self).outbox().len() + 1
                        &&& final(self).outbox().drop_last() == old(self).outbox()
                        &&& notice(final(self).outbox().last(), key@, ChangeType::Deleted,
                            Some(old(self).values()[key@]), None, old(self).version())
                        &&& final(self).version() == bumped(old(self).version())
                    } else {
                        &&& final(self).outbox() == old(self).outbox()
                        &&& final(self).version() == old(self).version()
                    }
                },
            },
    {
        Self::validate_key(key)?;
        let removed = self.data.remove(key);
        proof {
            assert(self.values() =~= old(self).values().remove(key@));
        }
        let old_value = match removed {
            Some(entry) => Some(entry.value),
            None => None,
        };
        self.count_operation();
        let existed = old_value.is_some();
        if self.config.enable_notifications && existed {
            let version = self.next_version();
            let notification = ChangeNotification {
                key: key.to_owned(),
                change_type: ChangeType::Deleted,
                old_value,
                new_value: None,
                version,
                timestamp: unix_time_millis(),
            };
            self.outbox.push(notification);
            proof {
                assert(self.outbox@.drop_last() =~= old(self).outbox@);
            }
        }
        if existed { Ok(KVResult::Success) } else { Ok(KVResult::NotFound) }
    }

    /// Whether `key` is present, after checking it; the operation is
    /// counted.
    pub fn key_exists(&mut self, key: &str) -> (r: Result<bool, StoreError>)
        ensures
            final(self).config_view() == old(self).config_view(),
            final(self).pairs() == old(self).pairs(),
            final(self).version() == old(self).version(),
            final(self).outbox() == old(self).outbox(),
            match key_fault(key@) {
                Some(f) => r matches Err(e) && reports(e, f) && final(self).stats_view() == old(self).stats_view(),
                None => {
                    &&& r == Ok::<bool, StoreError>(old(self).values().contains_key(key@))
                    &&& KVStore::counted(old(self).stats_view(), final(self).stats_view())
                },
            },
    {
        Self::validate_key(key)?;
        let found = self.data.contains_key(key);
        proof {
            assert(self.values().dom() =~= self.entries().dom());
        }
        self.count_operation();
        Ok(found)
    }

    /// The keys, in the store's order, that begin with `prefix` (all keys
    /// without one); the operation is counted.
    pub fn keys(&mut self, prefix: Option<&str>) -> (r: Result<Vec<String>, StoreError>)
        ensures
            final(self).config_view() == old(self).config_view(),
            final(self).pairs() == old(self).pairs(),
            final(self).version() == old(self).version(),
            final(self).outbox() == old(self).outbox(),
            KVStore::counted(old(self).stats_view(), final(self).stats_view()),
            r matches Ok(ks) && key_texts(ks@) == pair_keys(old(self).pairs().filter(prefix_test(opt_str_text(prefix)))),
    {
        let ghost sel = prefix_test(opt_str_text(prefix));
        let mut out: Vec<String> = Vec::new();
        let n = self.data.len();
        let mut i: usize = 0;
        while i < n
            invariant
                n == self.pairs().len(),
                i <= n,
                sel == prefix_test(opt_str_text(prefix)),
                key_texts(out@) == pair_keys(self.pairs().take(i as int).filter(sel)),
            decreases n - i,
        {
            let k = self.data.key_at(i);
            let keep = match prefix {
                Some(p) => str_starts_with(k.as_str(), p),
                None => true,
            };
            proof {
                reveal_with_fuel(Seq::filter, 1);
                assert(self.pairs().take(i + 1).drop_last() =~= self.pairs().take(i as int));
                assert(self.pairs().take(i + 1).last() == self.pairs()[i as int]);
                assert(sel(self.pairs()[i as int]) == keep);
            }
            if keep {
                let ghost before = out@;
                out.push(k.clone());
                proof {
                    assert(self.pairs().take(i + 1).filter(sel) == self.pairs().take(i as int).filter(sel).push(self.pairs()[i as int]));
                    assert(key_texts(out@) =~= key_texts(before).push(k@));
                    assert(key_texts(out@) =~= pair_keys(self.pairs().take(i + 1).filter(sel)));
                }
            } else {
                proof {
                    assert(self.pairs().take(i + 1).filter(sel) == self.pairs().take(i as int).filter(sel));
                }
            }
            i = i + 1;
        }
        assert(self.pairs().take(n as int) =~= self.pairs());
        self.count_operation();
        Ok(out)
    }

    /// Number of keys.
    pub fn size(&self) -> (r: usize)
        ensures
            r == self.pairs().len(),
            r == self.values().len(),
    {
        let n = self.data.len();
        proof { self.lemma_values_len(); }
        n
    }

    /// Removes every key; the operation is counted and, when notifications
    /// are on and the store held keys, a `Cleared` notification for key "*"
    /// is recorded, its old value the text "<n> keys" for the number of keys
    /// removed.
    pub fn clear(&mut self) -> (r: Result<KVResult, StoreError>)
        ensures
            r matches Ok(KVResult::Success),
            final(self).config_view() == old(self).config_view(),
            final(self).pairs().len() == 0,
            final(self).values() == Map::<Seq<char>, Seq<char>>::empty(),
            KVStore::counted(old(self).stats_view(), final(self).stats_view()),
            if old(self).config_view().enable_notifications && old(self).pairs().len() > 0 {
                &&& final(self).outbox().len() == old(self).outbox().len() + 1
                &&& final(self).outbox().drop_last() == old(self).outbox()
                &&& notice(final(self).outbox().last(), "*"@, ChangeType::Cleared,
                    Some(decimal_text(old(self).pairs().len()) + " keys"@), None, old(self).version())
                &&& final(self).version() == bumped(old(self).version())
            } else {
                &&& final(self).outbox() == old(self).outbox()
                &&& final(self).version() == old(self).version()
            },
    {
        let old_size = self.data.len();
        self.data.clear();
        proof {
            assert(self.values() =~= Map::<Seq<char>, Seq<char>>::empty());
        }
        self.count_operation();
        if self.config.enable_notifications && old_size > 0 {
            let version = self.next_version();
            let text = around_number("", old_size as u64, " keys");
            proof {
                reveal_strlit("");
                assert(text@ =~= decimal_text(old_size as nat) + " keys"@);
            }
            let notification = ChangeNotification {
                key: "*".to_owned(),
                change_type: ChangeType::Cleared,
                old_value: Some(text),
                new_value: None,
                version,
                timestamp: unix_time_millis(),
            };
            self.outbox.push(notification);
            proof {
                assert(self.outbox@.drop_last() =~= old(self).outbox@);
            }
        }
        Ok(KVResult::Success)
    }

    /// Copies of the entries, in order.
    fn entry_copies(&self) -> (r: Vec<(String, ValueEntry)>)
        ensures
            snapshot_pairs(r@) == self.pairs(),
            keys_unique(self.pairs()),
    {
        let n = self.data.len();
        let mut data: Vec<(String, ValueEntry)> = Vec::new();
        let mut i: usize = 0;
        while i < n
            invariant
                n == self.pairs().len(),
                i <= n,
                snapshot_pairs(data@) == self.pairs().take(i as int),
            decreases n - i,
        {
            let k = self.data.key_at(i).clone();
            let v = self.data.value_at(i).clone();
            let ghost before = data@;
            let ghost kv = (k@, v);
            data.push((k, v));
            proof {
                assert(snapshot_pairs(data@) =~= snapshot_pairs(before).push(kv));
                assert(self.pairs().take(i + 1) =~= self.pairs().take(i as int).push(self.pairs()[i as int]));
            }
            i = i + 1;
        }
        assert(self.pairs().take(n as int) =~= self.pairs());
        data
    }

    /// The table holding `entries`, in their order.
    fn table_of(entries: Vec<(String, ValueEntry)>) -> (t: StrTable<ValueEntry>)
        requires
            keys_unique(snapshot_pairs(entries@)),
        ensures
            t.pairs() == snapshot_pairs(entries@),
    {
        let ghost all = entries@;
        let ghost sp = snapshot_pairs(all);
        let mut t: StrTable<ValueEntry> = StrTable::new();
        let n = entries.len();
        let mut rest = entries;
        let mut i: usize = 0;
        proof {
            assert(sp.take(0) =~= Seq::<(Seq<char>, ValueEntry)>::empty());
        }
        while rest.len() > 0
            invariant
                rest@ == all.skip(i as int),
                n == all.len(),
                i + rest@.len() == all.len(),
                sp == snapshot_pairs(all),
                keys_unique(sp),
                t.pairs() == sp.take(i as int),
            decreases rest@.len(),
        {
            let (k, v) = rest.remove(0);
            proof {
                assert(sp[i as int] == (k@, v));
                assert(rest@ =~= all.skip(i + 1));
                crate::table::lemma_entries_dom(sp.take(i as int), k@);
                if t.map().contains_key(k@) {
                    let j = choose|j: int| 0 <= j < sp.take(i as int).len() && sp.take(i as int)[j].0 == k@;
                    assert(sp[j].0 == sp[i as int].0);
                }
            }
            t.insert(k, v);
            proof {
                assert(sp.take(i + 1) =~= sp.take(i as int).push(sp[i as int]));
            }
            i = i + 1;
        }
        assert(sp.take(i as int) =~= sp);
        t
    }

    /// Runs `operations` in order, each as its own call would (a `Get` or an
    /// `Exists` answers `Success` when the key is present, else
    /// `NotFound`), and returns their results. The batch is atomic: when
    /// an operation is refused, the batch ends with its error and the
    /// store, with its counters, version and notifications, is left as it
    /// was before the batch. Otherwise every operation is counted and, when
    /// notifications are on, each change is notified in order with
    /// consecutive versions.
    pub fn apply_batch(&mut self, operations: Vec<KVOperation>) -> (r: Result<Vec<KVResult>, StoreError>)
        ensures
            final(self).config_view() == old(self).config_view(),
            ({
                let (m, rs, f) = batch_run(old(self).values(), operations@, old(self).max_keys(), old(self).max_value());
                match f {
                    Some(fault) => {
                        &&& r matches Err(e) && reports(e, fault)
                        &&& final(self).pairs() == old(self).pairs()
                        &&& final(self).stats_view() == old(self).stats_view()
                        &&& final(self).version() == old(self).version()
                        &&& final(self).outbox() == old(self).outbox()
                    },
                    None => {
                        &&& r matches Ok(v) && v@ == rs
                        &&& final(self).values() == m
                        &&& KVStore::counted_times(old(self).stats_view(), final(self).stats_view(), operations@.len())
                        &&& old(self).outbox().is_prefix_of(final(self).outbox())
                        &&& if old(self).config_view().enable_notifications {
                            let ns = batch_notices(old(self).values(), operations@, old(self).max_keys(), old(self).max_value());
                            &&& final(self).version() == bumped_times(old(self).version(), ns.len())
                            &&& notices_from(final(self).outbox(), old(self).outbox().len() as int, ns, old(self).version())
                        } else {
                            &&& final(self).version() == old(self).version()
                            &&& final(self).outbox() == old(self).outbox()
                        }
                    },
                }
            }),
    {
        let backup = self.entry_copies();
        let stats = self.stats;
        let version = self.version;
        let outbox_len = self.outbox.len();
        let r = self.run_batch(operations);
        if r.is_err() {
            self.data = Self::table_of(backup);
            self.stats = stats;
            self.version = version;
            self.outbox.truncate(outbox_len);
            proof {
                assert(self.outbox@ =~= old(self).outbox@);
            }
        }
        r
    }

    /// Runs `operations` in order until one is refused; the operations
    /// before it stay done.
    #[verifier::rlimit(40)]
    fn run_batch(&mut self, operations: Vec<KVOperation>) -> (r: Result<Vec<KVResult>, StoreError>)
        ensures
            final(self).config_view() == old(self).config_view(),
            ({
                let (m, rs, f) = batch_run(old(self).values(), operations@, old(self).max_keys(), old(self).max_value());
                &&& final(self).values() == m
                &&& match f {
                    Some(fault) => r matches Err(e) && reports(e, fault),
                    None => {
                        let ns = batch_notices(old(self).values(), operations@, old(self).max_keys(), old(self).max_value());
                        &&& r matches Ok(v) && v@ == rs
                        &&& KVStore::counted_times(old(self).stats_view(), final(self).stats_view(), operations@.len())
                        &&& if old(self).config_view().enable_notifications {
                            &&& final(self).version() == bumped_times(old(self).version(), ns.len())
                            &&& notices_from(final(self).outbox(), old(self).outbox().len() as int, ns, old(self).version())
                        } else {
                            &&& final(self).version() == old(self).version()
                            &&& final(self).outbox() == old(self).outbox()
                        }
                    },
                }
            }),
            old(self).outbox().is_prefix_of(final(self).outbox()),
    {
        let ghost m0 = self.values();
        let ghost ops = operations@;
        let max_keys = self.config.max_keys;
        let max_value = self.config.max_value_size;
        let mut results: Vec<KVResult> = Vec::new();
        let mut i: usize = 0;
        while i < operations.len()
            invariant
                i <= ops.len(),
                operations@ == ops,
                m0 == old(self).values(),
                self.config_view() == old(self).config_view(),
                max_keys == self.config_view().max_keys,
                max_value == self.config_view().max_value_size,
                batch_run(m0, ops.take(i as int), max_keys as nat, max_value as nat)
                    == (self.values(), results@, None::<StoreFault>),
                old(self).outbox().is_prefix_of(self.outbox()),
                KVStore::counted_times(old(self).stats_view(), self.stats_view(), i as nat),
                if old(self).config_view().enable_notifications {
                    let ns = batch_notices(m0, ops.take(i as int), max_keys as nat, max_value as nat);
                    &&& self.version() == bumped_times(old(self).version(), ns.len())
                    &&& notices_from(self.outbox(), old(self).outbox().len() as int, ns, old(self).version())
                } else {
                    &&& self.version() == old(self).version()
                    &&& self.outbox() == old(self).outbox()
                },
            decreases ops.len() - i,
        {
            proof {
                assert(ops.take(i + 1).drop_last() =~= ops.take(i as int));
                assert(ops.take(i + 1).last() == ops[i as int]);
            }
            let ghost before = self.outbox();
            let ghost before_stats = self.stats_view();
            let ghost before_version = self.version();
            let ghost before_values = self.values();
            let result = match &operations[i] {
                KVOperation::Put { key, value } => self.set(key.as_str(), value.as_str()),
                KVOperation::Get { key } => match self.get(key.as_str()) {
                    Ok(v) => Ok(if v.is_some() { KVResult::Success } else { KVResult::NotFound }),
                    Err(e) => Err(e),
                },
                KVOperation::Delete { key } => self.delete(key.as_str()),
                KVOperation::Exists { key } => match self.key_exists(key.as_str()) {
                    Ok(found) => Ok(if found { KVResult::Success } else { KVResult::NotFound }),
                    Err(e) => Err(e),
                },
            };
            proof {
                assert(before.is_prefix_of(self.outbox())) by {
                    if self.outbox().len() > before.len() {
                        assert(self.outbox().drop_last() == before);
                        assert(self.outbox().subrange(0, before.len() as int) =~= self.outbox().drop_last());
                    } else {
                        assert(self.outbox() == before);
                    }
                }
                assert(old(self).outbox().is_prefix_of(self.outbox())) by {
                    assert(self.outbox().subrange(0, old(self).outbox().len() as int)
                        =~= before.subrange(0, old(self).outbox().len() as int));
                }
            }
            match result {
                Ok(res) => {
                    proof {
                        let ns0 = batch_notices(m0, ops.take(i as int), max_keys as nat, max_value as nat);
                        let ns1 = batch_notices(m0, ops.take(i + 1), max_keys as nat, max_value as nat);
                        let start = old(self).outbox().len() as int;
                        assert(ns1 == match op_notice(before_values, ops[i as int]) {
                            Some(n) => ns0.push(n),
                            None => ns0,
                        });
                        if old(self).config_view().enable_notifications {
                            if op_notice(before_values, ops[i as int]) is Some {
                                assert(self.outbox().len() == before.len() + 1);
                                assert(self.outbox().drop_last() == before);
                                assert forall|k: int| 0 <= k < ns1.len() implies
                                    notice(self.outbox()[start + k], (#[trigger] ns1[k]).0, ns1[k].1, ns1[k].2, ns1[k].3, bumped_times(old(self).version(), k as nat)) by {
                                    if k < ns0.len() {
                                        assert(self.outbox()[start + k] == self.outbox().drop_last()[start + k]);
                                        assert(ns1[k] == ns0[k]);
                                    } else {
                                        assert(self.outbox()[start + k] == self.outbox().last());
                                    }
                                }
                            } else {
                                assert(self.outbox() == before);
                            }
                        }
                    }
                    results.push(res);
                },
                Err(e) => {
                    proof {
                        let (m1, rs, f) = batch_run(m0, ops.take(i as int), max_keys as nat, max_value as nat);
                        let (m2, r, f2) = op_step(m1, ops[i as int], max_keys as nat, max_value as nat);
                        assert(m1 == self.values());
                        assert(f2 is Some);
                        assert(reports(e, f2->0));
                        lemma_batch_stops(m0, ops, i as int, max_keys as nat, max_value as nat);
                    }
                    return Err(e);
                },
            }
            i = i + 1;
        }
        assert(ops.take(ops.len() as int) =~= ops);
        Ok(results)
    }

    /// A snapshot of the entries, with the next version and the present
    /// time; the snapshot time is recorded and the count of operations
    /// since the last snapshot starts again.
    pub fn create_snapshot(&mut self) -> (r: Result<StoreSnapshot, StoreError>)
        ensures
            r matches Ok(s) && {
                &&& snapshot_pairs(s.data@) == old(self).pairs()
                &&& s.version == old(self).version()
                &&& s.checksum == entries_checksum(snapshot_pairs(s.data@))
                &&& final(self).stats_view().last_snapshot_at == s.created_at
            },
            final(self).config_view() == old(self).config_view(),
            final(self).pairs() == old(self).pairs(),
            final(self).outbox() == old(self).outbox(),
            final(self).version() == bumped(old(self).version()),
            final(self).stats_view().operations_since_snapshot == 0,
            final(self).stats_view().total_operations == old(self).stats_view().total_operations,
    {
        let n = self.data.len();
        let mut data: Vec<(String, ValueEntry)> = Vec::new();
        let mut i: usize = 0;
        while i < n
            invariant
                n == self.pairs().len(),
                i <= n,
                snapshot_pairs(data@) == self.pairs().take(i as int),
            decreases n - i,
        {
            let k = self.data.key_at(i).clone();
            let v = self.data.value_at(i).clone();
            let ghost before = data@;
            let ghost kv = (k@, v);
            data.push((k, v));
            proof {
                assert(snapshot_pairs(data@) =~= snapshot_pairs(before).push(kv));
                assert(self.pairs().take(i + 1) =~= self.pairs().take(i as int).push(self.pairs()[i as int]));
            }
            i = i + 1;
        }
        assert(self.pairs().take(n as int) =~= self.pairs());
        let version = self.next_version();
        let created_at = unix_time_millis();
        let checksum = calculate_checksum(&data);
        self.stats.last_snapshot_at = created_at;
        self.stats.operations_since_snapshot = 0;
        Ok(StoreSnapshot { data, version, created_at, checksum })
    }

    /// Replaces the entries by those of `snapshot` (a later entry for a key
    /// wins) and takes its version, when its checksum is the checksum of its
    /// entries; otherwise refuses it with `InvalidSnapshot` and changes
    /// nothing.
    pub fn restore_snapshot(&mut self, snapshot: StoreSnapshot) -> (r: Result<(), StoreError>)
        ensures
            final(self).config_view() == old(self).config_view(),
            final(self).stats_view() == old(self).stats_view(),
            final(self).outbox() == old(self).outbox(),
            snapshot.checksum == entries_checksum(snapshot_pairs(snapshot.data@)) ==> {
                &&& r is Ok
                &&& final(self).entries() == entries_map(snapshot_pairs(snapshot.data@))
                &&& final(self).version() == snapshot.version
            },
            snapshot.checksum != entries_checksum(snapshot_pairs(snapshot.data@)) ==> {
                &&& r matches Err(StoreError::InvalidSnapshot)
                &&& final(self).pairs() == old(self).pairs()
                &&& final(self).version() == old(self).version()
            },
    {
        let calculated = calculate_checksum(&snapshot.data);
        if calculated != snapshot.checksum {
            return Err(StoreError::InvalidSnapshot);
        }
        let ghost sp = snapshot_pairs(snapshot.data@);
        self.data.clear();
        let StoreSnapshot { data, version, created_at: _, checksum: _ } = snapshot;
        let mut rest = data;
        let mut i: usize = 0;
        let n = rest.len();
        let ghost all = rest@;
        while rest.len() > 0
            invariant
                rest@ == all.skip(i as int),
                i + rest@.len() == all.len(),
                n == all.len(),
                sp == snapshot_pairs(all),
                self.entries() == entries_map(sp.take(i as int)),
                self.config_view() == old(self).config_view(),
                self.stats_view() == old(self).stats_view(),
                self.outbox() == old(self).outbox(),
                self.version() == old(self).version(),
            decreases rest@.len(),
        {
            let (k, v) = rest.remove(0);
            proof {
                assert(sp.take(i + 1).drop_last() =~= sp.take(i as int));
                assert(sp[i as int] == (k@, v));
                assert(rest@ =~= all.skip(i + 1));
            }
            self.data.insert(k, v);
            i = i + 1;
        }
        assert(sp.take(sp.len() as int) =~= sp);
        self.version = version;
        Ok(())
    }

    /// The counters, with the number of keys and an estimate of the bytes
    /// the entries take: each key's bytes, each value's recorded size, and
    /// `entry_size` for each entry.
    pub fn get_stats(&self) -> (r: StoreStats)
        ensures
            r.total_keys == self.pairs().len(),
            r.total_operations == self.stats_view().total_operations,
            r.last_snapshot_at == self.stats_view().last_snapshot_at,
            r.operations_since_snapshot == self.stats_view().operations_since_snapshot,
    {
        let mut stats = self.stats;
        stats.total_keys = self.data.len();
        stats.memory_usage_bytes = self.estimate_memory_usage();
        stats
    }

    /// An estimate of the bytes the entries take (see `memory_estimate`),
    /// with the size of an entry as the compiler lays it out, which the
    /// contract does not know.
    fn estimate_memory_usage(&self) -> (r: usize)
        ensures
            exists|entry_size: usize| r == #[trigger] memory_estimate(self.pairs(), entry_size),
    {
        let entry_size = value_entry_size();
        let n = self.data.len();
        let mut total: usize = 0;
        let mut i: usize = 0;
        while i < n
            invariant
                n == self.pairs().len(),
                i <= n,
                total == memory_estimate(self.pairs().take(i as int), entry_size),
            decreases n - i,
        {
            proof {
                assert(self.pairs().take(i + 1).drop_last() =~= self.pairs().take(i as int));
                assert(self.pairs().take(i + 1).last() == self.pairs()[i as int]);
            }
            total = total.saturating_add(self.data.key_at(i).as_str().as_bytes().len());
            total = total.saturating_add(self.data.value_at(i).size);
            total = total.saturating_add(entry_size);
            i = i + 1;
        }
        assert(self.pairs().take(n as int) =~= self.pairs());
        assert(total == memory_estimate(self.pairs(), entry_size));
        total
    }

    /// Hands out the notifications recorded so far, oldest first, and
    /// empties the outbox.
    pub fn take_notifications(&mut self) -> (r: Vec<ChangeNotification>)
        ensures
            r@ == old(self).outbox(),
            final(self).outbox().len() == 0,
            final(self).config_view() == old(self).config_view(),
            final(self).pairs() == old(self).pairs(),
            final(self).stats_view() == old(self).stats_view(),
            final(self).version() == old(self).version(),
    {
        let mut out: Vec<ChangeNotification> = Vec::new();
        std::mem::swap(&mut out, &mut self.outbox);
        out
    }
}

/// The size in bytes of a `ValueEntry` value, as the compiler lays it out.
///
/// Calls `std::mem::size_of`; the size depends on the target, so nothing is
/// stated of it.
#[verifier::external_body]
fn value_entry_size() -> (r: usize) {
    std::mem::size_of::<ValueEntry>()
}

/// A run stopped by a refused operation at `i` gives that operation's
/// fault.
proof fn lemma_batch_stops(m: Map<Seq<char>, Seq<char>>, ops: Seq<KVOperation>, i: int, max_keys: nat, max_value: nat)
    requires
        0 <= i < ops.len(),
        batch_run(m, ops.take(i), max_keys, max_value).2 is None,
    ensures
        ({
            let (m1, rs, f) = batch_run(m, ops.take(i), max_keys, max_value);
            let (m2, r, f2) = op_step(m1, ops[i], max_keys, max_value);
            f2 is Some ==> batch_run(m, ops, max_keys, max_value) == (m1, rs, f2)
        }),
    decreases ops.len() - i,
{
    let (m1, rs, f) = batch_run(m, ops.take(i), max_keys, max_value);
    let (m2, r, f2) = op_step(m1, ops[i], max_keys, max_value);
    assert(ops.take(i + 1).drop_last() =~= ops.take(i));
    if f2 is Some {
        lemma_batch_stopped_stays(m, ops, i + 1, max_keys, max_value);
    }
}

/// Once a run has stopped, later operations change nothing.
proof fn lemma_batch_stopped_stays(m: Map<Seq<char>, Seq<char>>, ops: Seq<KVOperation>, k: int, max_keys: nat, max_value: nat)
    requires
        0 <= k <= ops.len(),
        batch_run(m, ops.take(k), max_keys, max_value).2 is Some,
    ensures
        batch_run(m, ops, max_keys, max_value) == batch_run(m, ops.take(k), max_keys, max_value),
    decreases ops.len() - k,
{
    if k == ops.len() {
        assert(ops.take(k) =~= ops);
    } else {
        assert(ops.take(k + 1).drop_last() =~= ops.take(k));
        lemma_batch_stopped_stays(m, ops, k + 1, max_keys, max_value);
    }
}

} // verus!
