use netssh_core::buffer_pool::BufferPool;
use std::sync::Arc;

#[test]
fn test_buffer_pool_creation() {
    let pool = BufferPool::new(10, 8192);
    assert!(pool.get_buffer(1024).len() == 0);
}

#[test]
fn test_buffer_pool_reuse() {
    let pool = Arc::new(BufferPool::new(5, 8192));

    for _ in 0..10 {
        let mut buffer = pool.get_buffer(1024);
        buffer.resize(100, 42);
    }

    let mut buffer = pool.get_buffer(1024);
    assert_eq!(buffer.len(), 0);
    assert!(buffer.get_mut().capacity() >= 1024);
}

#[test]
fn test_buffer_pool_capacity() {
    let pool = Arc::new(BufferPool::new(3, 8192));

    let mut buffers = Vec::new();
    for i in 0..5 {
        let mut buffer = pool.get_buffer(1024 * (i + 1));
        buffer.resize(100, 42);
        buffers.push(buffer);
    }

    buffers.clear();

    let buffer = pool.get_buffer(1024);
    assert_eq!(buffer.len(), 0);
}

#[test]
fn test_borrowed_buffer_operations() {
    let pool = Arc::new(BufferPool::new(5, 8192));
    let mut buffer = pool.get_buffer(1024);

    buffer.resize(100, 42);
    assert_eq!(buffer.len(), 100);
    assert!(buffer.get_mut().capacity() >= 100);

    buffer.clear();
    assert_eq!(buffer.len(), 0);

    assert!(buffer.is_empty());

    buffer.resize(10, 1);
    assert_eq!(buffer.as_slice().len(), 10);
    assert_eq!(buffer[0], 1);

    let inner = buffer.into_inner();
    assert_eq!(inner.len(), 10);
}

#[test]
fn test_global_buffer_pool() {
    let pool = BufferPool::global();

    let mut buffer = pool.get_buffer(4096);
    buffer.resize(100, 255);
    assert_eq!(buffer.len(), 100);

    drop(buffer);

    let buffer = pool.get_buffer(2048);
    assert_eq!(buffer.len(), 0);
}

#[test]
fn test_buffer_utf8_conversion() {
    let pool = Arc::new(BufferPool::new(5, 8192));
    let mut buffer = pool.get_buffer(1024);

    buffer.clear();
    buffer.get_mut().extend_from_slice("Hello, world!".as_bytes());
    assert_eq!(buffer.as_utf8_string().unwrap(), "Hello, world!");

    buffer.clear();
    buffer.get_mut().extend_from_slice(&[0xFF, 0x00, 0x80, 0xBF]);
    assert!(buffer.as_utf8_string().is_err());

    assert!(buffer.as_utf8_lossy_string().len() > 0);
}

#[test]
fn test_buffer_reuse_threshold() {
    let pool = Arc::new(BufferPool::new(5, 1024));

    let mut large_buffer = pool.get_buffer(2048);
    large_buffer.resize(1500, 1);
    drop(large_buffer);

    let mut small_buffer = pool.get_buffer(512);
    small_buffer.resize(100, 1);
    drop(small_buffer);

    let mut buffer = pool.get_buffer(256);

    assert!(buffer.get_mut().capacity() >= 256);
    assert!(buffer.get_mut().capacity() < 2048);
}

#[test]
fn lossy_conversion_replaces_invalid_bytes() {
    let pool = BufferPool::new(2, 1024);
    let mut buffer = pool.get_buffer(16);
    buffer.get_mut().extend_from_slice(&[b'a', 0xFF, b'b']);
    assert_eq!(buffer.as_utf8_lossy_string(), "a\u{FFFD}b");
}

#[test]
fn valid_utf8_round_trips_exactly() {
    let pool = BufferPool::new(2, 1024);
    let mut buffer = pool.get_buffer(16);
    buffer.get_mut().extend_from_slice("héllo".as_bytes());
    assert_eq!(buffer.as_utf8_string().unwrap(), "héllo");
}
