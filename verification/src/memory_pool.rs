//! Pools of reusable byte buffers and strings, sorted into size classes.
//!
//! A buffer taken from a pool is handed back with `recycle`: the pool keeps
//! it, emptied, while its class has room and its capacity is still the one
//! its class gives. No class of a pool ever holds more than the pool's
//! limit.

use vstd::prelude::*;
use std::collections::VecDeque;
use crate::text::{string_with_capacity, string_push_str, string_clear};

verus! {

/// Capacity of a small buffer, in bytes.
pub const SMALL_BUFFER_SIZE: usize = 1024;
/// Capacity of a medium buffer, in bytes.
pub const MEDIUM_BUFFER_SIZE: usize = 8192;
/// Least capacity of a large buffer, in bytes.
pub const LARGE_BUFFER_SIZE: usize = 65536;
/// Number of buffers of each class that `warm_up` offers.
pub const WARM_UP_COUNT: usize = 10;
/// Most strings of each class that a default `StringPool` keeps.
pub const DEFAULT_STRING_POOL_SIZE: usize = 50;
/// Capacity of a small string.
pub const SMALL_STRING_SIZE: usize = 256;
/// Least capacity of a large string.
pub const LARGE_STRING_SIZE: usize = 1024;

/// The size class of a buffer.
#[derive(Debug, Clone, Copy, PartialEq, Eq, Structural)]
pub enum SizeClass {
    Small,
    Medium,
    Large,
}

/// The class that serves a request for at least `min_size` bytes.
pub open spec fn class_of(min_size: nat) -> SizeClass {
    if min_size <= SMALL_BUFFER_SIZE {
        SizeClass::Small
    } else if min_size <= MEDIUM_BUFFER_SIZE {
        SizeClass::Medium
    } else {
        SizeClass::Large
    }
}

/// The capacity with which a buffer for `min_size` bytes is made.
pub open spec fn class_capacity(min_size: nat) -> nat {
    if min_size <= SMALL_BUFFER_SIZE {
        SMALL_BUFFER_SIZE as nat
    } else if min_size <= MEDIUM_BUFFER_SIZE {
        MEDIUM_BUFFER_SIZE as nat
    } else if min_size > LARGE_BUFFER_SIZE {
        min_size
    } else {
        LARGE_BUFFER_SIZE as nat
    }
}

/// `Vec::capacity`: how many bytes `v` holds without reallocating.
///
/// std documents it as never less than the length; beyond that it is what
/// the allocator gave, so nothing more is stated.
#[verifier::external_body]
fn vec_capacity(v: &Vec<u8>) -> (r: usize)
    ensures
        r >= v@.len(),
{
    v.capacity()
}

/// Sizes of the buffer classes and the most buffers a class keeps.
#[derive(Debug, Clone)]
pub struct PoolConfig {
    pub small_buffer_size: usize,
    pub medium_buffer_size: usize,
    pub large_buffer_size: usize,
    pub max_pool_size: usize,
}

impl Default for PoolConfig {
    fn default() -> (r: PoolConfig)
        ensures
            r.small_buffer_size == SMALL_BUFFER_SIZE,
            r.medium_buffer_size == MEDIUM_BUFFER_SIZE,
            r.large_buffer_size == LARGE_BUFFER_SIZE,
            r.max_pool_size == 100,
    {
        PoolConfig {
            small_buffer_size: SMALL_BUFFER_SIZE,
            medium_buffer_size: MEDIUM_BUFFER_SIZE,
            large_buffer_size: LARGE_BUFFER_SIZE,
            max_pool_size: 100,
        }
    }
}

/// How many buffers of each class a pool holds.
#[derive(Debug)]
pub struct PoolStats {
    pub small_buffers_available: usize,
    pub medium_buffers_available: usize,
    pub large_buffers_available: usize,
}

/// A pool of empty byte buffers in three size classes.
pub struct MemoryPool {
    small_buffers: VecDeque<Vec<u8>>,
    medium_buffers: VecDeque<Vec<u8>>,
    large_buffers: VecDeque<Vec<u8>>,
    max_pool_size: usize,
}

/// Every buffer of `q` is empty.
pub open spec fn all_empty(q: Seq<Vec<u8>>) -> bool {
    forall|i: int| 0 <= i < q.len() ==> (#[trigger] q[i])@.len() == 0
}

/// How many buffers a class holds after `added` buffers were offered to
/// it one by one, starting from `held`, when each is taken only while the
/// class holds fewer than `limit`.
pub open spec fn warmed_count(held: nat, added: nat, limit: nat) -> nat {
    if held >= limit {
        held
    } else if held + added <= limit {
        held + added
    } else {
        limit
    }
}

/// Appends a fresh, empty buffer asked for with `capacity` bytes to `q`
/// when `q` holds fewer than `limit` buffers.
fn top_up(q: &mut VecDeque<Vec<u8>>, limit: usize, capacity: usize)
    requires
        all_empty(old(q)@),
    ensures
        all_empty(final(q)@),
        final(q)@.len() == if old(q)@.len() < limit { old(q)@.len() + 1 } else { old(q)@.len() },
{
    if q.len() < limit {
        let ghost before = q@;
        q.push_back(Vec::with_capacity(capacity));
        assert(all_empty(q@)) by {
            assert forall|k: int| 0 <= k < q@.len() implies (#[trigger] q@[k])@.len() == 0 by {
                if k < before.len() { assert(q@[k] == before[k]); }
            }
        }
    }
}

/// Offers `q` `WARM_UP_COUNT` fresh, empty buffers asked for with
/// `capacity` bytes, one by one, each taken while `q` holds fewer than
/// `limit`.
fn warm_queue(q: &mut VecDeque<Vec<u8>>, limit: usize, capacity: usize)
    requires
        all_empty(old(q)@),
    ensures
        all_empty(final(q)@),
        final(q)@.len() == warmed_count(old(q)@.len(), WARM_UP_COUNT as nat, limit as nat),
{
    let mut i: usize = 0;
    while i < WARM_UP_COUNT
        invariant
            i <= WARM_UP_COUNT,
            all_empty(q@),
            q@.len() == warmed_count(old(q)@.len(), i as nat, limit as nat),
        decreases WARM_UP_COUNT - i,
    {
        top_up(q, limit, capacity);
        i = i + 1;
    }
}

impl MemoryPool {
    /// Every buffer the pool holds is empty.
    #[verifier::type_invariant]
    spec fn wf(&self) -> bool {
        &&& all_empty(self.small_buffers@)
        &&& all_empty(self.medium_buffers@)
        &&& all_empty(self.large_buffers@)
        &&& self.small_buffers@.len() <= self.max_pool_size
        &&& self.medium_buffers@.len() <= self.max_pool_size
        &&& self.large_buffers@.len() <= self.max_pool_size
    }

    /// No class of the pool holds more than the pool's limit.
    pub open spec fn within_limit(&self) -> bool {
        forall|c: SizeClass| #[trigger] self.available(c) <= self.max_size()
    }

    /// The buffers the pool holds in `class`, front first.
    spec fn class_buffers(&self, class: SizeClass) -> Seq<Vec<u8>> {
        match class {
            SizeClass::Small => self.small_buffers@,
            SizeClass::Medium => self.medium_buffers@,
            SizeClass::Large => self.large_buffers@,
        }
    }

    /// Number of buffers the pool holds in `class`.
    pub closed spec fn available(&self, class: SizeClass) -> nat {
        self.class_buffers(class).len()
    }

    /// Most buffers a class keeps when buffers are recycled.
    pub closed spec fn max_size(&self) -> nat {
        self.max_pool_size as nat
    }

    /// An empty pool whose classes keep at most `config.max_pool_size`
    /// buffers each.
    pub fn new(config: PoolConfig) -> (r: MemoryPool)
        ensures
            r.available(SizeClass::Small) == 0,
            r.available(SizeClass::Medium) == 0,
            r.available(SizeClass::Large) == 0,
            r.max_size() == config.max_pool_size,
            r.within_limit(),
    {
        MemoryPool {
            small_buffers: VecDeque::with_capacity(config.max_pool_size),
            medium_buffers: VecDeque::with_capacity(config.max_pool_size),
            large_buffers: VecDeque::with_capacity(config.max_pool_size),
            max_pool_size: config.max_pool_size,
        }
    }

    /// Moves the buffers of `class` out of the pool, leaving the class
    /// empty.
    fn take_class(&mut self, class: SizeClass) -> (r: VecDeque<Vec<u8>>)
        ensures
            r@ == old(self).class_buffers(class),
            all_empty(r@),
            r@.len() <= old(self).max_size(),
            final(self).class_buffers(class).len() == 0,
            forall|c: SizeClass| c != class ==> final(self).class_buffers(c) == old(self).class_buffers(c),
            final(self).max_size() == old(self).max_size(),
    {
        proof { use_type_invariant(&*self); }
        let mut q: VecDeque<Vec<u8>> = VecDeque::new();
        match class {
            SizeClass::Small => std::mem::swap(&mut q, &mut self.small_buffers),
            SizeClass::Medium => std::mem::swap(&mut q, &mut self.medium_buffers),
            SizeClass::Large => std::mem::swap(&mut q, &mut self.large_buffers),
        }
        q
    }

    /// Puts `q` in as the buffers of `class`.
    fn put_class(&mut self, class: SizeClass, q: VecDeque<Vec<u8>>)
        requires
            all_empty(q@),
            q@.len() <= old(self).max_size(),
        ensures
            final(self).class_buffers(class) == q@,
            forall|c: SizeClass| c != class ==> final(self).class_buffers(c) == old(self).class_buffers(c),
            final(self).max_size() == old(self).max_size(),
    {
        proof { use_type_invariant(&*self); }
        match class {
            SizeClass::Small => { self.small_buffers = q; },
            SizeClass::Medium => { self.medium_buffers = q; },
            SizeClass::Large => { self.large_buffers = q; },
        }
    }

    /// An empty buffer of the class that serves `min_size` bytes: the
    /// buffer at the front of the class when the class holds one whose
    /// capacity is at least `min_size`, else a fresh one asked of the
    /// allocator with the class's capacity. A buffer taken from the front
    /// that is too small is dropped.
    pub fn get_buffer(&mut self, min_size: usize) -> (r: PooledBuffer)
        requires
            min_size <= isize::MAX,
        ensures
            r@.len() == 0,
            r.class_view() == class_of(min_size as nat),
            r.expected_capacity() == class_capacity(min_size as nat),
            r.handed_capacity() >= min_size,
            r.max_pool_size() == old(self).max_size(),
            final(self).max_size() == old(self).max_size(),
            final(self).within_limit(),
            forall|c: SizeClass| final(self).available(c) == if c == class_of(min_size as nat) {
                if old(self).available(c) > 0 { (old(self).available(c) - 1) as nat } else { 0 }
            } else {
                old(self).available(c)
            },
    {
        let (class, capacity) = if min_size <= SMALL_BUFFER_SIZE {
            (SizeClass::Small, SMALL_BUFFER_SIZE)
        } else if min_size <= MEDIUM_BUFFER_SIZE {
            (SizeClass::Medium, MEDIUM_BUFFER_SIZE)
        } else if min_size > LARGE_BUFFER_SIZE {
            (SizeClass::Large, min_size)
        } else {
            (SizeClass::Large, LARGE_BUFFER_SIZE)
        };
        let mut q = self.take_class(class);
        let ghost before = q@;
        let popped = q.pop_front();
        assert(all_empty(q@)) by {
            assert forall|k: int| 0 <= k < q@.len() implies (#[trigger] q@[k])@.len() == 0 by {
                assert(q@[k] == before[k + 1]);
            }
        }
        self.put_class(class, q);
        let (buffer, handed) = match popped {
            Some(b) => {
                assert(b == before[0]);
                let found = vec_capacity(&b);
                if found >= min_size {
                    (b, found)
                } else {
                    (Vec::with_capacity(capacity), capacity)
                }
            },
            None => (Vec::with_capacity(capacity), capacity),
        };
        proof { use_type_invariant(&*self); }
        PooledBuffer {
            buffer,
            class,
            expected_capacity: capacity,
            handed_capacity: Ghost(handed as nat),
            max_pool_size: self.max_pool_size,
        }
    }

    /// Adds fresh buffers to each class, `WARM_UP_COUNT` of them, or fewer
    /// where the class would otherwise hold more than the pool's limit.
    pub fn warm_up(&mut self)
        ensures
            final(self).max_size() == old(self).max_size(),
            final(self).within_limit(),
            forall|c: SizeClass| final(self).available(c)
                == warmed_count(old(self).available(c), WARM_UP_COUNT as nat, old(self).max_size()),
    {
        let config = PoolConfig::default();
        let limit = self.max_pool_size;
        let mut q = self.take_class(SizeClass::Small);
        warm_queue(&mut q, limit, config.small_buffer_size);
        self.put_class(SizeClass::Small, q);
        let mut q = self.take_class(SizeClass::Medium);
        warm_queue(&mut q, limit, config.medium_buffer_size);
        self.put_class(SizeClass::Medium, q);
        let mut q = self.take_class(SizeClass::Large);
        warm_queue(&mut q, limit, config.large_buffer_size);
        self.put_class(SizeClass::Large, q);
        proof { use_type_invariant(&*self); }
    }

    /// Number of buffers held in each class.
    pub fn stats(&self) -> (r: PoolStats)
        ensures
            r.small_buffers_available == self.available(SizeClass::Small),
            r.medium_buffers_available == self.available(SizeClass::Medium),
            r.large_buffers_available == self.available(SizeClass::Large),
    {
        PoolStats {
            small_buffers_available: self.small_buffers.len(),
            medium_buffers_available: self.medium_buffers.len(),
            large_buffers_available: self.large_buffers.len(),
        }
    }

    /// Drops every buffer the pool holds.
    pub fn clear(&mut self)
        ensures
            final(self).max_size() == old(self).max_size(),
            final(self).within_limit(),
            forall|c: SizeClass| final(self).available(c) == 0,
    {
        self.put_class(SizeClass::Small, VecDeque::new());
        self.put_class(SizeClass::Medium, VecDeque::new());
        self.put_class(SizeClass::Large, VecDeque::new());
        proof { use_type_invariant(&*self); }
    }

    /// Takes `buffer` back, given that its capacity is now `capacity`: it is
    /// emptied and kept, at the back of its class, when that capacity is
    /// still its class's and the class holds fewer buffers than the limit
    /// of the pool the buffer came from and than this pool's own limit
    /// (the same number when it comes back to its own pool). Returns
    /// whether it was kept.
    pub fn recycle_with_capacity(&mut self, buffer: PooledBuffer, capacity: usize) -> (kept: bool)
        ensures
            kept == (capacity == buffer.expected_capacity()
                && old(self).available(buffer.class_view()) < buffer.max_pool_size()
                && old(self).available(buffer.class_view()) < old(self).max_size()),
            final(self).max_size() == old(self).max_size(),
            final(self).within_limit(),
            forall|c: SizeClass| final(self).available(c) == if c == buffer.class_view() && kept {
                old(self).available(c) + 1
            } else {
                old(self).available(c)
            },
    {
        proof { use_type_invariant(&*self); }
        let PooledBuffer { mut buffer, class, expected_capacity, max_pool_size, .. } = buffer;
        buffer.clear();
        if capacity != expected_capacity {
            return false;
        }
        let mut q = self.take_class(class);
        let kept = q.len() < max_pool_size && q.len() < self.max_pool_size;
        if kept {
            let ghost before = q@;
            q.push_back(buffer);
            assert(all_empty(q@)) by {
                assert forall|k: int| 0 <= k < q@.len() implies (#[trigger] q@[k])@.len() == 0 by {
                    if k < before.len() { assert(q@[k] == before[k]); }
                }
            }
        }
        self.put_class(class, q);
        proof { use_type_invariant(&*self); }
        kept
    }

    /// Takes `buffer` back, as `recycle_with_capacity` does with the
    /// buffer's present capacity. The pool gains at most one buffer, in the
    /// buffer's class, and only while that class is under the limit.
    pub fn recycle(&mut self, buffer: PooledBuffer) -> (kept: bool)
        ensures
            kept ==> old(self).available(buffer.class_view()) < buffer.max_pool_size(),
            kept ==> old(self).available(buffer.class_view()) < old(self).max_size(),
            final(self).max_size() == old(self).max_size(),
            final(self).within_limit(),
            forall|c: SizeClass| final(self).available(c) == if c == buffer.class_view() && kept {
                old(self).available(c) + 1
            } else {
                old(self).available(c)
            },
    {
        let capacity = buffer.capacity();
        self.recycle_with_capacity(buffer, capacity)
    }
}

impl Default for MemoryPool {
    fn default() -> (r: MemoryPool)
        ensures
            r.available(SizeClass::Small) == 0,
            r.available(SizeClass::Medium) == 0,
            r.available(SizeClass::Large) == 0,
            r.max_size() == 100,
            r.within_limit(),
    {
        MemoryPool::new(PoolConfig::default())
    }
}

/// An empty buffer for at least `min_size` bytes, of the class that serves
/// that size, taken from a pool of its own: the library keeps no
/// process-wide pool, so a caller that wants buffers reused keeps a
/// `MemoryPool` and recycles into it.
pub fn get_pooled_buffer(min_size: usize) -> (r: PooledBuffer)
    requires
        min_size <= isize::MAX,
    ensures
        r@.len() == 0,
        r.class_view() == class_of(min_size as nat),
        r.expected_capacity() == class_capacity(min_size as nat),
        r.handed_capacity() >= min_size,
{
    let mut pool = MemoryPool::default();
    pool.get_buffer(min_size)
}

/// A byte buffer taken from a `MemoryPool`, with the class it belongs to.
pub struct PooledBuffer {
    buffer: Vec<u8>,
    class: SizeClass,
    expected_capacity: usize,
    handed_capacity: Ghost<nat>,
    max_pool_size: usize,
}

impl View for PooledBuffer {
    type V = Seq<u8>;

    closed spec fn view(&self) -> Seq<u8> {
        self.buffer@
    }
}

impl PooledBuffer {
    /// The class the buffer came from.
    pub closed spec fn class_view(&self) -> SizeClass {
        self.class
    }

    /// The capacity a buffer of its class keeps: the class's capacity for
    /// the size it was asked for. Recycling keeps the buffer only while its
    /// capacity is still this.
    pub closed spec fn expected_capacity(&self) -> nat {
        self.expected_capacity as nat
    }

    /// The capacity the buffer had when it was handed out, as `Vec`
    /// reports it: read with `Vec::capacity` from a reused buffer, or the
    /// capacity asked of `Vec::with_capacity` for a fresh one, which std
    /// documents as a least capacity. Verus has no model of a `Vec`'s
    /// capacity, so this is the reading, not a view of the vector.
    pub closed spec fn handed_capacity(&self) -> nat {
        self.handed_capacity@
    }

    /// The limit of the pool the buffer came from.
    pub closed spec fn max_pool_size(&self) -> nat {
        self.max_pool_size as nat
    }

    /// The class the buffer came from.
    pub fn size_class(&self) -> (r: SizeClass)
        ensures
            r == self.class_view(),
    {
        self.class
    }

    /// The underlying vector, to write into.
    pub fn buffer_mut(&mut self) -> (r: &mut Vec<u8>)
        ensures
            r@ == old(self)@,
            final(self)@ == final(r)@,
            final(self).class_view() == old(self).class_view(),
            final(self).expected_capacity() == old(self).expected_capacity(),
            final(self).handed_capacity() == old(self).handed_capacity(),
            final(self).max_pool_size() == old(self).max_pool_size(),
    {
        &mut self.buffer
    }

    /// Moves the contents out, leaving the buffer empty.
    pub fn take_bytes(&mut self) -> (r: Vec<u8>)
        ensures
            r@ == old(self)@,
            final(self)@.len() == 0,
            final(self).class_view() == old(self).class_view(),
            final(self).expected_capacity() == old(self).expected_capacity(),
            final(self).handed_capacity() == old(self).handed_capacity(),
            final(self).max_pool_size() == old(self).max_pool_size(),
    {
        let mut out: Vec<u8> = Vec::new();
        std::mem::swap(&mut out, &mut self.buffer);
        out
    }

    /// The contents.
    pub fn as_slice(&self) -> (r: &[u8])
        ensures
            r@ == self@,
    {
        self.buffer.as_slice()
    }

    /// Number of bytes held.
    pub fn len(&self) -> (r: usize)
        ensures
            r == self@.len(),
    {
        self.buffer.len()
    }

    /// Whether no byte is held.
    pub fn is_empty(&self) -> (r: bool)
        ensures
            r == (self@.len() == 0),
    {
        self.buffer.is_empty()
    }

    /// How many bytes the buffer holds without reallocating; never less
    /// than its length.
    pub fn capacity(&self) -> (r: usize)
        ensures
            r >= self@.len(),
    {
        vec_capacity(&self.buffer)
    }

    /// Truncates to `new_len` bytes, or pads with `value` up to it.
    pub fn resize(&mut self, new_len: usize, value: u8)
        ensures
            final(self)@ == if new_len <= old(self)@.len() {
                old(self)@.subrange(0, new_len as int)
            } else {
                old(self)@ + Seq::new((new_len - old(self)@.len()) as nat, |i: int| value)
            },
            final(self).class_view() == old(self).class_view(),
            final(self).expected_capacity() == old(self).expected_capacity(),
            final(self).handed_capacity() == old(self).handed_capacity(),
            final(self).max_pool_size() == old(self).max_pool_size(),
    {
        let ghost old_buf = self.buffer@;
        self.buffer.resize(new_len, value);
        proof {
            if new_len > old_buf.len() {
                let pad = Seq::new((new_len - old_buf.len()) as nat, |i: int| value);
                assert forall|k: int| 0 <= k < new_len implies #[trigger] self.buffer@[k] == (old_buf + pad)[k] by {
                    if k < old_buf.len() {
                        assert(self.buffer@.subrange(0, old_buf.len() as int)[k] == old_buf[k]);
                    }
                }
                assert(self.buffer@ =~= old_buf + pad);
            }
        }
    }

    /// Empties the buffer.
    pub fn clear(&mut self)
        ensures
            final(self)@.len() == 0,
            final(self).class_view() == old(self).class_view(),
            final(self).expected_capacity() == old(self).expected_capacity(),
            final(self).handed_capacity() == old(self).handed_capacity(),
            final(self).max_pool_size() == old(self).max_pool_size(),
    {
        self.buffer.clear();
    }
}

/// A pool of empty strings in two size classes: small, for requests up to
/// `SMALL_STRING_SIZE` characters of capacity, and large.
pub struct StringPool {
    small_strings: VecDeque<String>,
    large_strings: VecDeque<String>,
    max_pool_size: usize,
}

/// Every string of `q` is empty.
pub open spec fn all_empty_strings(q: Seq<String>) -> bool {
    forall|i: int| 0 <= i < q.len() ==> (#[trigger] q[i])@.len() == 0
}

impl StringPool {
    /// Every string the pool holds is empty.
    #[verifier::type_invariant]
    spec fn wf(&self) -> bool {
        &&& all_empty_strings(self.small_strings@)
        &&& all_empty_strings(self.large_strings@)
        &&& self.small_strings@.len() <= self.max_pool_size
        &&& self.large_strings@.len() <= self.max_pool_size
    }

    /// No class of the pool holds more than the pool's limit.
    pub open spec fn within_limit(&self) -> bool {
        forall|large: bool| #[trigger] self.available(large) <= self.max_size()
    }

    /// The strings held, large ones when `large`, front first.
    spec fn class_strings(&self, large: bool) -> Seq<String> {
        if large { self.large_strings@ } else { self.small_strings@ }
    }

    /// Number of strings held, large ones when `large`.
    pub closed spec fn available(&self, large: bool) -> nat {
        self.class_strings(large).len()
    }

    /// Most strings a class keeps.
    pub closed spec fn max_size(&self) -> nat {
        self.max_pool_size as nat
    }

    /// An empty pool keeping at most `max_pool_size` strings per class.
    pub fn new(max_pool_size: usize) -> (r: StringPool)
        ensures
            r.available(false) == 0,
            r.available(true) == 0,
            r.max_size() == max_pool_size,
            r.within_limit(),
    {
        StringPool {
            small_strings: VecDeque::with_capacity(max_pool_size),
            large_strings: VecDeque::with_capacity(max_pool_size),
            max_pool_size,
        }
    }

    /// Moves the strings of a class out of the pool, leaving it empty.
    fn take_class(&mut self, large: bool) -> (r: VecDeque<String>)
        ensures
            r@ == old(self).class_strings(large),
            all_empty_strings(r@),
            r@.len() <= old(self).max_size(),
            final(self).class_strings(large).len() == 0,
            final(self).class_strings(!large) == old(self).class_strings(!large),
            final(self).max_size() == old(self).max_size(),
            final(self).within_limit(),
    {
        proof { use_type_invariant(&*self); }
        let mut q: VecDeque<String> = VecDeque::new();
        if large {
            std::mem::swap(&mut q, &mut self.large_strings);
        } else {
            std::mem::swap(&mut q, &mut self.small_strings);
        }
        q
    }

    /// Puts `q` in as the strings of a class.
    fn put_class(&mut self, large: bool, q: VecDeque<String>)
        requires
            all_empty_strings(q@),
            q@.len() <= old(self).max_size(),
        ensures
            final(self).class_strings(large) == q@,
            final(self).class_strings(!large) == old(self).class_strings(!large),
            final(self).max_size() == old(self).max_size(),
    {
        proof { use_type_invariant(&*self); }
        if large {
            self.large_strings = q;
        } else {
            self.small_strings = q;
        }
    }

    /// An empty string for at least `min_capacity` bytes: the front string
    /// of its class if there is one, else a fresh one.
    pub fn get_string(&mut self, min_capacity: usize) -> (r: PooledString)
        requires
            min_capacity <= isize::MAX,
        ensures
            r@.len() == 0,
            r.is_large() == (min_capacity > SMALL_STRING_SIZE),
            r.max_pool_size() == old(self).max_size(),
            final(self).max_size() == old(self).max_size(),
            final(self).within_limit(),
            forall|large: bool| final(self).available(large) == if large == (min_capacity > SMALL_STRING_SIZE) {
                if old(self).available(large) > 0 { (old(self).available(large) - 1) as nat } else { 0 }
            } else {
                old(self).available(large)
            },
    {
        let is_large = min_capacity > SMALL_STRING_SIZE;
        let capacity = if !is_large {
            SMALL_STRING_SIZE
        } else if min_capacity > LARGE_STRING_SIZE {
            min_capacity
        } else {
            LARGE_STRING_SIZE
        };
        let mut q = self.take_class(is_large);
        let ghost before = q@;
        let popped = q.pop_front();
        assert(all_empty_strings(q@)) by {
            assert forall|k: int| 0 <= k < q@.len() implies (#[trigger] q@[k])@.len() == 0 by {
                assert(q@[k] == before[k + 1]);
            }
        }
        self.put_class(is_large, q);
        let string = match popped {
            Some(s) => {
                assert(s == before[0]);
                s
            },
            None => string_with_capacity(capacity),
        };
        proof { use_type_invariant(&*self); }
        PooledString { string, is_large, max_pool_size: self.max_pool_size }
    }

    /// Takes `string` back: emptied and kept at the back of its class while
    /// the class holds fewer strings than the limit of the pool the string
    /// came from and than this pool's own limit. Returns whether it was
    /// kept.
    pub fn recycle(&mut self, string: PooledString) -> (kept: bool)
        ensures
            kept == (old(self).available(string.is_large()) < string.max_pool_size()
                && old(self).available(string.is_large()) < old(self).max_size()),
            final(self).max_size() == old(self).max_size(),
            final(self).within_limit(),
            forall|large: bool| final(self).available(large) == if large == string.is_large() && kept {
                old(self).available(large) + 1
            } else {
                old(self).available(large)
            },
    {
        let PooledString { string: mut s, is_large, max_pool_size } = string;
        string_clear(&mut s);
        let mut q = self.take_class(is_large);
        let kept = q.len() < max_pool_size && q.len() < self.max_pool_size;
        if kept {
            let ghost before = q@;
            q.push_back(s);
            assert(all_empty_strings(q@)) by {
                assert forall|k: int| 0 <= k < q@.len() implies (#[trigger] q@[k])@.len() == 0 by {
                    if k < before.len() { assert(q@[k] == before[k]); }
                }
            }
        }
        self.put_class(is_large, q);
        proof { use_type_invariant(&*self); }
        kept
    }
}

impl Default for StringPool {
    fn default() -> (r: StringPool)
        ensures
            r.available(false) == 0,
            r.available(true) == 0,
            r.max_size() == DEFAULT_STRING_POOL_SIZE,
            r.within_limit(),
    {
        StringPool::new(DEFAULT_STRING_POOL_SIZE)
    }
}

/// A string taken from a `StringPool`.
pub struct PooledString {
    string: String,
    is_large: bool,
    max_pool_size: usize,
}

impl View for PooledString {
    type V = Seq<char>;

    closed spec fn view(&self) -> Seq<char> {
        self.string@
    }
}

impl PooledString {
    /// Whether the string came from the large class.
    pub closed spec fn is_large(&self) -> bool {
        self.is_large
    }

    /// The limit of the pool the string came from.
    pub closed spec fn max_pool_size(&self) -> nat {
        self.max_pool_size as nat
    }

    /// The text.
    pub fn as_str(&self) -> (r: &str)
        ensures
            r@ == self@,
    {
        self.string.as_str()
    }

    /// Appends `s`.
    pub fn push_str(&mut self, s: &str)
        ensures
            final(self)@ == old(self)@ + s@,
            final(self).is_large() == old(self).is_large(),
            final(self).max_pool_size() == old(self).max_pool_size(),
    {
        string_push_str(&mut self.string, s);
    }

    /// Empties the string.
    pub fn clear(&mut self)
        ensures
            final(self)@.len() == 0,
            final(self).is_large() == old(self).is_large(),
            final(self).max_pool_size() == old(self).max_pool_size(),
    {
        string_clear(&mut self.string);
    }

    /// The owned text; the string does not go back to a pool.
    pub fn into_string(self) -> (r: String)
        ensures
            r@ == self@,
    {
        self.string
    }
}

} // verus!
