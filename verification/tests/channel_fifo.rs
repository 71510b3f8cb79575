//! The bounded channel: capacity, order, backpressure.

use unblocked::channel::{BoundedChannel, ChannelError};

#[test]
fn zero_capacity_is_rejected() {
    let r = BoundedChannel::new(0);
    assert!(matches!(r, Err(ChannelError::ZeroCapacity)));
}

#[test]
fn new_channel_is_empty() {
    let mut c = BoundedChannel::new(16).unwrap();
    assert_eq!(c.capacity(), 16);
    assert_eq!(c.len(), 0);
    assert!(c.is_empty());
    assert_eq!(c.try_read(8), Vec::<u8>::new());
}

#[test]
fn writes_within_capacity_read_back_in_order() {
    let mut c = BoundedChannel::new(8).unwrap();
    assert_eq!(c.try_write(&[1, 2, 3]), 3);
    assert_eq!(c.try_write(&[4, 5]), 2);
    assert_eq!(c.len(), 5);
    assert_eq!(c.try_read(10), vec![1, 2, 3, 4, 5]);
    assert_eq!(c.try_read(10), Vec::<u8>::new());
}

#[test]
fn try_read_respects_max() {
    let mut c = BoundedChannel::new(8).unwrap();
    assert_eq!(c.try_write(&[7, 8, 9]), 3);
    assert_eq!(c.try_read(2), vec![7, 8]);
    assert_eq!(c.try_read(2), vec![9]);
    assert_eq!(c.try_read(0), Vec::<u8>::new());
}

#[test]
fn full_channel_applies_backpressure() {
    let mut c = BoundedChannel::new(4).unwrap();
    assert_eq!(c.try_write(&[1, 2, 3, 4, 5, 6]), 4);
    assert_eq!(c.try_write(&[7]), 0);
    assert_eq!(c.free_space(), 0);
    assert_eq!(c.try_read(2), vec![1, 2]);
    assert_eq!(c.free_space(), 2);
    assert_eq!(c.try_write(&[9, 10, 11]), 2);
    assert_eq!(c.try_read(8), vec![3, 4, 9, 10]);
}

#[test]
fn contents_survive_wraparound() {
    let mut c = BoundedChannel::new(3).unwrap();
    assert_eq!(c.try_write(&[1, 2, 3]), 3);
    assert_eq!(c.try_read(2), vec![1, 2]);
    assert_eq!(c.try_write(&[4, 5]), 2);
    assert_eq!(c.try_read(3), vec![3, 4, 5]);
}

#[test]
fn peek_leaves_bytes_in_place() {
    let mut c = BoundedChannel::new(4).unwrap();
    assert_eq!(c.try_write(&[5, 6, 7]), 3);
    assert_eq!(c.peek_all(), vec![5, 6, 7]);
    assert_eq!(c.len(), 3);
    c.consume(2);
    assert_eq!(c.peek_all(), vec![7]);
    assert_eq!(c.try_read(4), vec![7]);
}
