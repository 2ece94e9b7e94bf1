use horizon_sockets::BufferPool;

#[test]
fn test_buffer_pool_basic_operations() {
    let mut pool = BufferPool::new(4, 1024);
    assert_eq!(pool.available_count(), 4);
    let buffer = pool.acquire();
    assert_eq!(buffer.capacity(), 1024);
    assert_eq!(pool.available_count(), 3);
    pool.release(buffer);
    assert_eq!(pool.available_count(), 4);
}

#[test]
fn test_buffer_pool_batch_operations() {
    let mut pool = BufferPool::new(8, 512);
    let buffers = pool.acquire_batch(6);
    assert_eq!(buffers.len(), 6);
    assert_eq!(pool.available_count(), 2);
    pool.release_batch(buffers);
    assert_eq!(pool.available_count(), 8);
}

#[test]
fn test_buffer_pool_overflow_allocation() {
    let mut pool = BufferPool::new(2, 256);
    let buffers = pool.acquire_batch(5);
    assert_eq!(buffers.len(), 5);
    assert_eq!(pool.available_count(), 0);
    for buffer in buffers {
        assert_eq!(buffer.capacity(), 256);
    }
}

#[test]
fn buffer_pool_drops_buffers_past_twice_its_size() {
    let mut pool = BufferPool::new(1, 64);
    pool.release(vec![1, 2, 3]);
    assert_eq!(pool.available_count(), 2);
    pool.release(Vec::new());
    assert_eq!(pool.available_count(), 2);
    pool.release_batch(vec![Vec::new(), Vec::new()]);
    assert_eq!(pool.available_count(), 2);
}

#[test]
fn buffer_pool_hands_out_empty_buffers() {
    let mut pool = BufferPool::new(1, 64);
    pool.acquire();
    pool.release(vec![7, 7, 7]);
    let b = pool.acquire();
    assert!(b.is_empty());
    let fresh = pool.acquire();
    assert!(fresh.is_empty());
    assert_eq!(fresh.capacity(), 64);
}

#[test]
fn buffer_pool_default() {
    let pool = BufferPool::default();
    assert_eq!(pool.available_count(), 64);
    assert_eq!(pool.default_capacity(), 2048);
}
