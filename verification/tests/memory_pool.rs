use rabia::memory_pool::{MemoryPool, PoolConfig, SizeClass, StringPool};

#[test]
fn test_memory_pool_basic() {
    let mut pool = MemoryPool::default();

    let mut buffer = pool.get_buffer(100);
    buffer.buffer_mut().extend_from_slice(b"hello world");
    assert_eq!(buffer.len(), 11);

    // Hand the buffer back, as dropping it does
    pool.recycle(buffer);

    let stats = pool.stats();
    assert!(stats.small_buffers_available > 0);
}

#[test]
fn test_different_buffer_sizes() {
    let mut pool = MemoryPool::default();

    let small = pool.get_buffer(500);
    let medium = pool.get_buffer(4000);
    let large = pool.get_buffer(32000);

    assert!(small.capacity() >= 500);
    assert!(medium.capacity() >= 4000);
    assert!(large.capacity() >= 32000);
}

#[test]
fn test_string_pool() {
    let mut pool = StringPool::default();

    let mut string = pool.get_string(100);
    string.push_str("hello");
    string.push_str(" world");

    assert_eq!(string.as_str(), "hello world");

    let owned = string.into_string();
    assert_eq!(owned, "hello world");
}

#[test]
fn test_pooled_buffer_bytes() {
    let mut pool = MemoryPool::default();
    let mut buffer = pool.get_buffer(100);

    buffer.buffer_mut().extend_from_slice(b"test data");
    let bytes = buffer.take_bytes();

    assert_eq!(bytes.as_slice(), b"test data");
    assert_eq!(buffer.len(), 0);
}

#[test]
fn buffers_come_from_their_size_class() {
    let mut pool = MemoryPool::default();
    pool.warm_up();
    let stats = pool.stats();
    assert_eq!(stats.small_buffers_available, 10);
    assert_eq!(stats.medium_buffers_available, 10);
    assert_eq!(stats.large_buffers_available, 10);

    let b = pool.get_buffer(1024);
    assert_eq!(b.size_class(), SizeClass::Small);
    let m = pool.get_buffer(1025);
    assert_eq!(m.size_class(), SizeClass::Medium);
    let l = pool.get_buffer(8193);
    assert_eq!(l.size_class(), SizeClass::Large);
    let stats = pool.stats();
    assert_eq!(stats.small_buffers_available, 9);
    assert_eq!(stats.medium_buffers_available, 9);
    assert_eq!(stats.large_buffers_available, 9);
    assert!(b.is_empty() && m.is_empty() && l.is_empty());

    assert!(pool.recycle(b));
    assert_eq!(pool.stats().small_buffers_available, 10);
    pool.clear();
    assert_eq!(pool.stats().small_buffers_available, 0);
}

#[test]
fn a_full_class_keeps_no_more_buffers() {
    let config = PoolConfig { max_pool_size: 1, ..PoolConfig::default() };
    let mut pool = MemoryPool::new(config);
    let a = pool.get_buffer(10);
    let b = pool.get_buffer(10);
    assert!(pool.recycle(a));
    assert!(!pool.recycle(b));
    assert_eq!(pool.stats().small_buffers_available, 1);
}

#[test]
fn recycled_buffers_come_back_empty() {
    let mut pool = MemoryPool::default();
    let mut a = pool.get_buffer(10);
    a.buffer_mut().extend_from_slice(b"leftover");
    pool.recycle(a);
    let again = pool.get_buffer(10);
    assert!(again.is_empty());
}

#[test]
fn a_buffer_with_another_capacity_is_not_kept() {
    let mut pool = MemoryPool::default();
    let a = pool.get_buffer(10);
    assert!(!pool.recycle_with_capacity(a, 4096));
    assert_eq!(pool.stats().small_buffers_available, 0);
}

#[test]
fn resize_pads_and_truncates() {
    let mut pool = MemoryPool::default();
    let mut b = pool.get_buffer(10);
    b.resize(3, 7);
    assert_eq!(b.as_slice(), &[7, 7, 7]);
    b.resize(1, 0);
    assert_eq!(b.as_slice(), &[7]);
    b.clear();
    assert!(b.is_empty());
}

#[test]
fn strings_are_recycled_empty_while_the_class_has_room() {
    let mut pool = StringPool::new(1);
    let mut s = pool.get_string(10);
    s.push_str("abc");
    let t = pool.get_string(10);
    assert!(pool.recycle(s));
    assert!(!pool.recycle(t));
    let again = pool.get_string(10);
    assert_eq!(again.as_str(), "");
    let large = pool.get_string(300);
    assert_eq!(large.as_str(), "");
}

#[test]
fn test_thread_local_pool() {
    let buffer1 = rabia::memory_pool::get_pooled_buffer(100);
    let buffer2 = rabia::memory_pool::get_pooled_buffer(200);

    assert!(buffer1.capacity() >= 100);
    assert!(buffer2.capacity() >= 200);
}

#[test]
fn warm_up_stops_at_the_pool_limit() {
    let mut pool = MemoryPool::new(PoolConfig { max_pool_size: 5, ..PoolConfig::default() });
    pool.warm_up();
    let s = pool.stats();
    assert_eq!(s.small_buffers_available, 5);
    assert_eq!(s.medium_buffers_available, 5);
    assert_eq!(s.large_buffers_available, 5);
    pool.warm_up();
    assert_eq!(pool.stats().large_buffers_available, 5);
}

#[test]
fn warm_up_tops_up_a_partly_filled_pool() {
    let mut pool = MemoryPool::new(PoolConfig { max_pool_size: 15, ..PoolConfig::default() });
    pool.warm_up();
    assert_eq!(pool.stats().small_buffers_available, 10);
    pool.warm_up();
    assert_eq!(pool.stats().small_buffers_available, 15);
    let mut empty = MemoryPool::new(PoolConfig { max_pool_size: 0, ..PoolConfig::default() });
    empty.warm_up();
    assert_eq!(empty.stats().medium_buffers_available, 0);
}

#[test]
fn a_request_beyond_the_pooled_large_buffers_gets_a_fresh_one() {
    let mut pool = MemoryPool::default();
    pool.warm_up();
    let big = pool.get_buffer(200_000);
    assert!(big.capacity() >= 200_000);
    assert_eq!(big.size_class(), SizeClass::Large);
    assert!(big.is_empty());
    assert_eq!(pool.stats().large_buffers_available, 9);
    let usual = pool.get_buffer(32_000);
    assert!(usual.capacity() >= 32_000);
    assert_eq!(pool.stats().large_buffers_available, 8);
}

#[test]
fn warmed_buffers_meet_each_request() {
    let mut pool = MemoryPool::default();
    pool.warm_up();
    for size in [1usize, 500, 1024, 4000, 8192, 32_000, 65_536] {
        let b = pool.get_buffer(size);
        assert!(b.capacity() >= size);
        assert_eq!(b.len(), 0);
    }
}

#[test]
fn a_pool_keeps_no_more_than_its_own_limit() {
    let mut roomy = MemoryPool::default();
    let mut tight = MemoryPool::new(PoolConfig { max_pool_size: 1, ..PoolConfig::default() });
    let a = roomy.get_buffer(10);
    let b = roomy.get_buffer(10);
    assert!(tight.recycle(a));
    assert!(!tight.recycle(b));
    assert_eq!(tight.stats().small_buffers_available, 1);
}
