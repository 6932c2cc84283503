use gic_core::ring_buffer::RingBuffer;

#[test]
fn starts_empty() {
    let ring: RingBuffer<u8, 8> = RingBuffer::new();
    assert!(ring.is_empty());
    assert!(!ring.is_full());
}

#[test]
fn fifo_order() {
    let mut ring: RingBuffer<u8, 8> = RingBuffer::new();
    assert_eq!(ring.enqueue(1), Ok(()));
    assert_eq!(ring.enqueue(2), Ok(()));
    assert_eq!(ring.enqueue(3), Ok(()));
    assert_eq!(ring.dequeue(), Some(1));
    assert_eq!(ring.dequeue(), Some(2));
    assert_eq!(ring.dequeue(), Some(3));
    assert_eq!(ring.dequeue(), None);
}

#[test]
fn pop_takes_newest() {
    let mut ring: RingBuffer<u8, 4> = RingBuffer::new();
    assert_eq!(ring.enqueue(b'a'), Ok(()));
    assert_eq!(ring.enqueue(b'b'), Ok(()));
    assert_eq!(ring.pop(), Some(b'b'));
    assert_eq!(ring.pop(), Some(b'a'));
    assert_eq!(ring.pop(), None);
}

#[test]
fn full_ring_rejects_and_returns_item() {
    let mut ring: RingBuffer<u32, 2> = RingBuffer::new();
    assert_eq!(ring.enqueue(10), Ok(()));
    assert_eq!(ring.enqueue(20), Ok(()));
    assert!(ring.is_full());
    assert_eq!(ring.enqueue(30), Err(30));
    assert_eq!(ring.dequeue(), Some(10));
    assert_eq!(ring.enqueue(30), Ok(()));
    assert_eq!(ring.dequeue(), Some(20));
    assert_eq!(ring.dequeue(), Some(30));
}

#[test]
fn wraps_around_capacity() {
    let mut ring: RingBuffer<u16, 4> = RingBuffer::new();
    for v in 0..4u16 {
        assert_eq!(ring.enqueue(v), Ok(()));
    }
    assert_eq!(ring.dequeue(), Some(0));
    assert_eq!(ring.dequeue(), Some(1));
    assert_eq!(ring.enqueue(4), Ok(()));
    assert_eq!(ring.enqueue(5), Ok(()));
    assert!(ring.is_full());
    assert_eq!(ring.dequeue(), Some(2));
    assert_eq!(ring.dequeue(), Some(3));
    assert_eq!(ring.dequeue(), Some(4));
    assert_eq!(ring.dequeue(), Some(5));
    assert!(ring.is_empty());
}

#[test]
fn flush_drains_in_order() {
    let mut ring: RingBuffer<u8, 8> = RingBuffer::new();
    for v in [5u8, 6, 7] {
        assert_eq!(ring.enqueue(v), Ok(()));
    }
    let drained = ring.flush();
    assert_eq!(drained, vec![5, 6, 7]);
    assert!(ring.is_empty());
    assert_eq!(ring.dequeue(), None);
}

#[test]
fn flush_after_wrap_keeps_order() {
    let mut ring: RingBuffer<u8, 3> = RingBuffer::new();
    assert_eq!(ring.enqueue(1), Ok(()));
    assert_eq!(ring.enqueue(2), Ok(()));
    assert_eq!(ring.enqueue(3), Ok(()));
    assert_eq!(ring.dequeue(), Some(1));
    assert_eq!(ring.enqueue(4), Ok(()));
    let drained = ring.flush();
    assert_eq!(drained, vec![2, 3, 4]);
}

#[test]
fn capacity_one() {
    let mut ring: RingBuffer<u8, 1> = RingBuffer::new();
    assert_eq!(ring.enqueue(9), Ok(()));
    assert!(ring.is_full());
    assert_eq!(ring.enqueue(10), Err(10));
    assert_eq!(ring.pop(), Some(9));
    assert!(ring.is_empty());
}

#[test]
fn backspace_style_editing() {
    // The command-line use: type, erase the last byte, keep typing.
    let mut line: RingBuffer<u8, 16> = RingBuffer::new();
    for b in *b"ech" {
        assert_eq!(line.enqueue(b), Ok(()));
    }
    assert_eq!(line.pop(), Some(b'h'));
    for b in *b"ho" {
        assert_eq!(line.enqueue(b), Ok(()));
    }
    let drained = line.flush();
    assert_eq!(drained, b"echo".to_vec());
}
