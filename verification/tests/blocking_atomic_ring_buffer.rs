use tock_smp::collections::blocking_atomic_ring_buffer::AtomicRingBuffer;

#[test]
fn test_enqueue_dequeue() {
    const LEN: usize = 10;
    let mut ring = [0; LEN];
    let mut buf = AtomicRingBuffer::new(&mut ring);

    for _ in 0..2 * LEN {
        assert!(buf.enqueue(42));
        assert_eq!(buf.len(), 1);
        assert!(buf.has_elements());

        assert_eq!(buf.dequeue(), Some(42));
        assert_eq!(buf.len(), 0);
        assert!(!buf.has_elements());
    }
}

use tock_smp::collections::blocking_atomic_ring_buffer::Mutex;
use tock_smp::collections::ring_buffer::RingBuffer;

// Enqueue integers 1 <= n < len, checking that each succeeds and that the
// queue is full at the end.
fn enqueue_iota(buf: &mut AtomicRingBuffer<usize>, len: usize) {
    for i in 1..len {
        assert!(!buf.is_full());
        assert!(buf.enqueue(i));
        assert!(buf.has_elements());
        assert_eq!(buf.len(), i);
    }
    assert!(buf.is_full());
    assert!(!buf.enqueue(0));
    assert!(buf.has_elements());
}

// Dequeue all elements, expecting integers 1 <= n < len.
fn dequeue_iota(buf: &mut AtomicRingBuffer<usize>, len: usize) {
    for i in 1..len {
        assert!(buf.has_elements());
        assert_eq!(buf.len(), len - i);
        assert_eq!(buf.dequeue(), Some(i));
        assert!(!buf.is_full());
    }
    assert!(!buf.has_elements());
    assert_eq!(buf.len(), 0);
}

fn move_head(buf: &mut AtomicRingBuffer<usize>, count: usize) {
    for _ in 0..count {
        assert!(buf.enqueue(0));
        assert_eq!(buf.dequeue(), Some(0));
    }
    assert!(!buf.has_elements());
}

#[test]
fn fill_once_holds_one_less_than_its_slots() {
    const LEN: usize = 10;
    let ring = [0usize; LEN];
    let mut buf = AtomicRingBuffer::new(&ring);
    enqueue_iota(&mut buf, LEN);
    dequeue_iota(&mut buf, LEN);
}

#[test]
fn refill_after_wrapping() {
    const LEN: usize = 10;
    let ring = [0usize; LEN];
    let mut buf = AtomicRingBuffer::new(&ring);
    for _ in 0..10 {
        enqueue_iota(&mut buf, LEN);
        dequeue_iota(&mut buf, LEN);
    }
}

#[test]
fn push_drops_the_oldest_when_full() {
    const LEN: usize = 10;
    const MAX: usize = 100;
    let ring = [0usize; LEN + 1];
    let mut buf = AtomicRingBuffer::new(&ring);
    for i in 0..LEN {
        assert_eq!(buf.len(), i);
        assert!(!buf.is_full());
        assert_eq!(buf.push(i), None);
        assert!(buf.has_elements());
    }
    for i in LEN..MAX {
        assert!(buf.is_full());
        assert_eq!(buf.push(i), Some(i - LEN));
    }
    for i in 0..LEN {
        assert!(buf.has_elements());
        assert_eq!(buf.len(), LEN - i);
        assert_eq!(buf.dequeue(), Some(MAX - LEN + i));
        assert!(!buf.is_full());
    }
    assert!(!buf.has_elements());
}

#[test]
fn retain_keeps_order_across_the_wrap() {
    const LEN: usize = 10;
    let ring = [0usize; LEN];
    let mut buf = AtomicRingBuffer::new(&ring);
    move_head(&mut buf, LEN - 2);
    enqueue_iota(&mut buf, LEN);
    buf.retain(|x| x % 2 == 1);
    assert_eq!(buf.len(), LEN / 2);
    assert_eq!(buf.dequeue(), Some(1));
    assert_eq!(buf.dequeue(), Some(3));
    assert_eq!(buf.dequeue(), Some(5));
    assert_eq!(buf.dequeue(), Some(7));
    assert_eq!(buf.dequeue(), Some(9));
    assert_eq!(buf.dequeue(), None);
}

#[test]
fn empty_drops_everything() {
    let ring = [0u8; 4];
    let mut buf = AtomicRingBuffer::new(&ring);
    assert!(buf.enqueue(1));
    assert!(buf.enqueue(2));
    buf.empty();
    assert_eq!(buf.len(), 0);
    assert_eq!(buf.dequeue(), None);
    assert!(buf.enqueue(3));
    assert_eq!(buf.dequeue(), Some(3));
}

#[test]
fn single_slot_ring_is_always_full() {
    let ring = [7u32; 1];
    let mut buf = AtomicRingBuffer::new(&ring);
    assert!(buf.is_full());
    assert!(!buf.enqueue(1));
    assert_eq!(buf.len(), 0);
    assert_eq!(buf.push(5), Some(7));
    assert_eq!(buf.push(6), Some(5));
    assert_eq!(buf.len(), 0);
}

#[test]
fn enqueue_then_dequeue_commute_on_a_nonempty_queue() {
    let ring = [0u32; 5];
    let mut a = AtomicRingBuffer::new(&ring);
    let mut b = AtomicRingBuffer::new(&ring);
    for q in [&mut a, &mut b] {
        assert!(q.enqueue(10));
        assert!(q.enqueue(20));
    }
    assert!(a.enqueue(30));
    let front_a = a.dequeue();
    let front_b = b.dequeue();
    assert!(b.enqueue(30));
    assert_eq!(front_a, front_b);
    for _ in 0..2 {
        assert_eq!(a.dequeue(), b.dequeue());
    }
    assert_eq!(a.len(), 0);
    assert_eq!(b.len(), 0);
}

#[test]
fn ring_buffer_over_owned_slots() {
    let mut ring = RingBuffer::new(vec![0u16; 3]);
    assert!(ring.enqueue(4));
    assert!(ring.enqueue(5));
    assert!(ring.is_full());
    assert_eq!(ring.push(6), Some(4));
    assert_eq!(ring.dequeue(), Some(5));
    assert_eq!(ring.dequeue(), Some(6));
    assert!(!ring.has_elements());
}

#[test]
fn mutex_lock_unlock_and_into_inner() {
    let mut m = Mutex::new(5u32);
    let mut g = m.lock();
    assert_eq!(*g.deref(), 5);
    *g.deref_mut() = 9;
    m.unlock(g);
    assert_eq!(m.into_inner(), 9);
}

#[test]
fn mutex_map_applies_to_the_value_inside() {
    let mut m = Mutex::new(Some(4u32));
    let r = m.map(|v| (v + 1, v * 10));
    assert_eq!(r, Some(40));
    let r2 = m.map(|v| (v, v));
    assert_eq!(r2, Some(5));
    let mut none: Mutex<Option<u32>> = Mutex::new(None);
    assert_eq!(none.map(|v| (v, v)), None);
    assert_eq!(none.into_inner(), None);
}

#[test]
fn retain_everything_or_nothing() {
    let ring = [0u8; 6];
    let mut buf = AtomicRingBuffer::new(&ring);
    for i in 1..6u8 {
        assert!(buf.enqueue(i));
    }
    buf.retain(|_| true);
    assert_eq!(buf.len(), 5);
    assert_eq!(buf.dequeue(), Some(1));
    buf.retain(|_| false);
    assert_eq!(buf.len(), 0);
    assert!(!buf.has_elements());
    assert!(buf.enqueue(9));
    assert_eq!(buf.dequeue(), Some(9));
}

#[test]
fn queue_without_slots_holds_nothing() {
    let ring: [u8; 0] = [];
    let mut buf = AtomicRingBuffer::new(&ring);
    assert_eq!(buf.slot_count(), 0);
    assert!(!buf.has_elements());
    assert_eq!(buf.len(), 0);
    assert_eq!(buf.dequeue(), None);
    buf.retain(|_| true);
    buf.empty();
    assert_eq!(buf.len(), 0);
}

#[test]
fn mutex_keeps_the_last_write() {
    let mut m = Mutex::new(1u32);
    for w in [Some(5u32), None, Some(8), None] {
        let mut g = m.lock();
        if let Some(w) = w {
            *g.deref_mut() = w;
        }
        m.unlock(g);
    }
    assert_eq!(m.into_inner(), 8);
}

#[test]
fn empty_queue_accepts_after_wrapping() {
    let ring = [0u8; 3];
    let mut buf = AtomicRingBuffer::new(&ring);
    for k in 0..7u8 {
        assert!(buf.enqueue(k));
        assert_eq!(buf.dequeue(), Some(k));
    }
    assert!(buf.enqueue(9));
    assert_eq!(buf.len(), 1);
    assert!(buf.has_elements());
    assert_eq!(buf.dequeue(), Some(9));
    assert_eq!(buf.len(), 0);
    assert!(!buf.has_elements());
}
