//! Tests for the bounded outbound queue: order, backpressure at
//! capacity, and refusal after close or across cycles.

use wsmux::errors::SessionError;
use wsmux::queue::{EnqueueResult, OutboundQueue, SenderHandle};

#[test]
fn fifo_order_preserved() {
    let mut q = OutboundQueue::new(8);
    let s = q.sender();
    for msg in [b"one".to_vec(), b"two".to_vec(), b"three".to_vec()] {
        assert_eq!(q.try_enqueue(&s, msg), EnqueueResult::Enqueued);
    }
    assert_eq!(q.dequeue(), Some(b"one".to_vec()));
    assert_eq!(q.dequeue(), Some(b"two".to_vec()));
    assert_eq!(q.dequeue(), Some(b"three".to_vec()));
    assert_eq!(q.dequeue(), None);
}

#[test]
fn enqueue_beyond_capacity_waits_for_drain() {
    // capacity N, then N+1 attempts before any drain: the last one is
    // told to wait, and succeeds once the drain loop takes one out.
    let n: usize = 4;
    let mut q = OutboundQueue::new(n);
    let s = q.sender();
    for i in 0..n {
        assert_eq!(q.try_enqueue(&s, vec![i as u8]), EnqueueResult::Enqueued);
    }
    assert_eq!(q.try_enqueue(&s, vec![0xaa]), EnqueueResult::Full);
    assert_eq!(q.len(), n);
    assert_eq!(q.dequeue(), Some(vec![0u8]));
    assert_eq!(q.try_enqueue(&s, vec![0xaa]), EnqueueResult::Enqueued);
    // order still holds across the backpressure episode
    assert_eq!(q.dequeue(), Some(vec![1u8]));
    assert_eq!(q.dequeue(), Some(vec![2u8]));
    assert_eq!(q.dequeue(), Some(vec![3u8]));
    assert_eq!(q.dequeue(), Some(vec![0xaa]));
}

#[test]
fn closed_queue_refuses_enqueue() {
    let mut q = OutboundQueue::new(2);
    let s = q.sender();
    assert_eq!(q.try_enqueue(&s, b"kept".to_vec()), EnqueueResult::Enqueued);
    q.close();
    assert_eq!(q.try_enqueue(&s, b"late".to_vec()), EnqueueResult::Closed);
    // pending payloads survive the close and drain in order
    assert_eq!(q.dequeue(), Some(b"kept".to_vec()));
}

#[test]
fn stale_sender_refused_after_reopen() {
    let mut q = OutboundQueue::new(2);
    let stale = q.sender();
    q.close();
    q.reopen();
    assert_eq!(q.try_enqueue(&stale, b"old cycle".to_vec()), EnqueueResult::Closed);
    let fresh = q.sender();
    assert_eq!(q.try_enqueue(&fresh, b"new cycle".to_vec()), EnqueueResult::Enqueued);
}

#[test]
fn only_a_refused_enqueue_is_an_error() {
    let mut q = OutboundQueue::new(1);
    let s = q.sender();
    assert_eq!(q.try_enqueue(&s, vec![1]).error(), None);
    // full asks the producer to wait; that is backpressure, not an error
    assert_eq!(q.try_enqueue(&s, vec![2]).error(), None);
    q.close();
    assert_eq!(
        q.try_enqueue(&s, vec![3]).error(),
        Some(SessionError::QueueClosed)
    );
}

#[test]
fn sender_names_current_generation() {
    let mut q = OutboundQueue::new(1);
    assert_eq!(q.sender(), SenderHandle { generation: 0 });
    q.reopen();
    assert_eq!(q.sender(), SenderHandle { generation: 1 });
}
