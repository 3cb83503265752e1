use futures::channel::mpsc;
use futures::task::noop_waker;
use std::task::Context;
use tentacle::buffer::{on_readiness, Buffer, PriorityBuffer, SendResult};
use tentacle::channel::{Offer, Priority, Readiness};

#[test]
fn buffer_delivers_in_order() {
    let waker = noop_waker();
    let mut cx = Context::from_waker(&waker);
    let (sender, mut receiver) = mpsc::channel::<u32>(8);
    let mut buffer = Buffer::new(sender);
    buffer.push(1);
    buffer.push(2);
    buffer.push(3);
    assert_eq!(buffer.len(), 3);
    assert_eq!(buffer.try_send(&mut cx), SendResult::Done);
    assert!(buffer.is_empty());
    assert_eq!(receiver.try_recv().unwrap(), 1);
    assert_eq!(receiver.try_recv().unwrap(), 2);
    assert_eq!(receiver.try_recv().unwrap(), 3);
    assert!(receiver.try_recv().is_err());
}

#[test]
fn empty_buffer_is_done_even_if_the_receiver_is_gone() {
    let waker = noop_waker();
    let mut cx = Context::from_waker(&waker);
    let (sender, receiver) = mpsc::channel::<u32>(8);
    drop(receiver);
    let mut buffer = Buffer::new(sender);
    assert_eq!(buffer.try_send(&mut cx), SendResult::Done);
}

#[test]
fn buffer_is_pending_when_the_channel_is_full() {
    let waker = noop_waker();
    let mut cx = Context::from_waker(&waker);
    // Room for one item per sender, and none beside.
    let (sender, mut receiver) = mpsc::channel::<u32>(0);
    let mut buffer = Buffer::new(sender);
    for i in 0..4 {
        buffer.push(i);
    }
    assert_eq!(buffer.try_send(&mut cx), SendResult::Pending);
    assert_eq!(buffer.len(), 3);
    assert_eq!(receiver.try_recv().unwrap(), 0);
    assert_eq!(buffer.try_send(&mut cx), SendResult::Pending);
    assert_eq!(buffer.len(), 2);
    assert_eq!(receiver.try_recv().unwrap(), 1);
    assert_eq!(buffer.try_send(&mut cx), SendResult::Pending);
    assert_eq!(receiver.try_recv().unwrap(), 2);
    assert_eq!(buffer.try_send(&mut cx), SendResult::Done);
    assert_eq!(receiver.try_recv().unwrap(), 3);
    assert!(buffer.is_empty());
}

#[test]
fn buffer_reports_a_dropped_receiver_and_keeps_its_items() {
    let waker = noop_waker();
    let mut cx = Context::from_waker(&waker);
    let (sender, receiver) = mpsc::channel::<u32>(8);
    let mut buffer = Buffer::new(sender);
    buffer.push(1);
    buffer.push(2);
    drop(receiver);
    assert_eq!(buffer.try_send(&mut cx), SendResult::Disconnect);
    assert_eq!(buffer.len(), 2);
}

#[test]
fn buffer_take_hands_over_everything() {
    let (sender, mut receiver) = mpsc::channel::<u32>(8);
    let mut buffer = Buffer::new(sender);
    buffer.push(5);
    buffer.push(6);
    let (mut handle, rest) = buffer.take();
    assert!(buffer.is_empty());
    assert_eq!(rest.into_iter().collect::<Vec<u32>>(), vec![5, 6]);
    handle.try_send(9).unwrap();
    assert_eq!(receiver.try_recv().unwrap(), 9);
}

#[test]
fn buffer_clear_drops_everything() {
    let waker = noop_waker();
    let mut cx = Context::from_waker(&waker);
    let (sender, mut receiver) = mpsc::channel::<u32>(8);
    let mut buffer = Buffer::new(sender);
    buffer.push(5);
    buffer.clear();
    assert_eq!(buffer.len(), 0);
    assert_eq!(buffer.try_send(&mut cx), SendResult::Done);
    assert!(receiver.try_recv().is_err());
}

#[test]
fn priority_buffer_sends_high_first() {
    let waker = noop_waker();
    let mut cx = Context::from_waker(&waker);
    let (sender, mut receiver) = mpsc::channel::<u32>(256);
    let mut buffer = PriorityBuffer::new(sender);
    for i in 0..100u32 {
        buffer.push_normal(i);
    }
    buffer.push_high(1000);
    assert_eq!(buffer.len(), 101);
    assert_eq!(buffer.try_send(&mut cx), SendResult::Done);
    assert_eq!(receiver.try_recv().unwrap(), 1000);
    for i in 0..100u32 {
        assert_eq!(receiver.try_recv().unwrap(), i);
    }
}

#[test]
fn priority_buffer_keeps_order_within_each_lane() {
    let waker = noop_waker();
    let mut cx = Context::from_waker(&waker);
    let (sender, mut receiver) = mpsc::channel::<u32>(0);
    let mut buffer = PriorityBuffer::new(sender);
    buffer.push_normal(1);
    buffer.push_high(10);
    buffer.push_normal(2);
    buffer.push_high(20);
    let mut seen = Vec::new();
    loop {
        let result = buffer.try_send(&mut cx);
        while let Ok(item) = receiver.try_recv() {
            seen.push(item);
        }
        if result == SendResult::Done {
            break;
        }
        assert_eq!(result, SendResult::Pending);
        assert!(!buffer.is_empty());
    }
    assert_eq!(seen, vec![10, 20, 1, 2]);
}

#[test]
fn high_item_queued_while_blocked_goes_before_waiting_normal_items() {
    let waker = noop_waker();
    let mut cx = Context::from_waker(&waker);
    let (sender, mut receiver) = mpsc::channel::<u32>(0);
    let mut buffer = PriorityBuffer::new(sender);
    buffer.push_normal(1);
    buffer.push_normal(2);
    assert_eq!(buffer.try_send(&mut cx), SendResult::Pending);
    buffer.push_high(10);
    assert_eq!(receiver.try_recv().unwrap(), 1);
    assert_eq!(buffer.try_send(&mut cx), SendResult::Pending);
    assert_eq!(receiver.try_recv().unwrap(), 10);
    assert_eq!(buffer.try_send(&mut cx), SendResult::Done);
    assert_eq!(receiver.try_recv().unwrap(), 2);
}

#[test]
fn priority_buffer_take_and_clear() {
    let waker = noop_waker();
    let mut cx = Context::from_waker(&waker);
    let (sender, receiver) = mpsc::channel::<u32>(8);
    let mut buffer = PriorityBuffer::new(sender);
    buffer.push_normal(1);
    buffer.push_high(10);
    let (_, rest) = buffer.take();
    assert_eq!(rest.into_iter().collect::<Vec<u32>>(), vec![10, 1]);
    assert!(buffer.is_empty());
    buffer.push_normal(3);
    buffer.push_high(4);
    buffer.clear();
    assert_eq!(buffer.len(), 0);
    drop(receiver);
    assert_eq!(buffer.try_send(&mut cx), SendResult::Done);
    buffer.push_high(4);
    assert_eq!(buffer.try_send(&mut cx), SendResult::Disconnect);
    assert_eq!(buffer.len(), 1);
}

#[test]
fn readiness_decides_whether_a_drain_goes_on() {
    assert_eq!(on_readiness(Readiness::Ready), None);
    assert_eq!(on_readiness(Readiness::NotReady), Some(SendResult::Pending));
    assert_eq!(on_readiness(Readiness::Closed), Some(SendResult::Disconnect));
}

#[test]
fn buffer_next_takes_the_oldest_and_an_item_that_comes_back_is_the_oldest_again() {
    let (sender, _receiver) = mpsc::channel::<u32>(8);
    let mut buffer = Buffer::new(sender);
    assert_eq!(buffer.next(), None);
    buffer.push(1);
    buffer.push(2);
    assert_eq!(buffer.next(), Some(1));
    assert_eq!(buffer.len(), 1);
    assert_eq!(buffer.on_offer(Offer::Sent), None);
    assert_eq!(buffer.len(), 1);
    assert_eq!(buffer.next(), Some(2));
    assert_eq!(buffer.on_offer(Offer::Full(2)), Some(SendResult::Pending));
    assert_eq!(buffer.len(), 1);
    assert_eq!(buffer.next(), Some(2));
    buffer.push(3);
    assert_eq!(buffer.on_offer(Offer::Closed(2)), Some(SendResult::Disconnect));
    assert_eq!(buffer.next(), Some(2));
    assert_eq!(buffer.next(), Some(3));
    assert_eq!(buffer.next(), None);
}

#[test]
fn priority_buffer_next_takes_high_first_and_an_item_goes_back_to_its_lane() {
    let (sender, _receiver) = mpsc::channel::<u32>(8);
    let mut buffer = PriorityBuffer::new(sender);
    assert_eq!(buffer.next(), None);
    buffer.push_normal(1);
    buffer.push_high(10);
    buffer.push_high(20);
    assert_eq!(buffer.next(), Some((Priority::High, 10)));
    assert_eq!(buffer.on_offer(Priority::High, Offer::Full(10)), Some(SendResult::Pending));
    assert_eq!(buffer.len(), 3);
    assert_eq!(buffer.next(), Some((Priority::High, 10)));
    assert_eq!(buffer.on_offer(Priority::High, Offer::Sent), None);
    assert_eq!(buffer.next(), Some((Priority::High, 20)));
    assert_eq!(buffer.next(), Some((Priority::Normal, 1)));
    buffer.push_normal(2);
    assert_eq!(
        buffer.on_offer(Priority::Normal, Offer::Closed(1)),
        Some(SendResult::Disconnect)
    );
    assert_eq!(buffer.next(), Some((Priority::Normal, 1)));
    assert_eq!(buffer.next(), Some((Priority::Normal, 2)));
    assert_eq!(buffer.next(), None);
}
