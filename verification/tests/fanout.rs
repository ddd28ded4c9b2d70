use accel_core::codec::Normalized;
use accel_core::data::Reading;
use accel_core::fanout::{FanoutChannel, PollOutcome};

fn reading(idx: u32, gap: u32) -> Reading {
    let n = Normalized { num: gap as i32, den: 524287 };
    Reading { idx, gap, x: n, y: n, z: n }
}

#[test]
fn subscriber_that_never_lags_sees_exact_publish_order() {
    let mut c = FanoutChannel::new(100);
    let mut s = c.subscribe();
    for i in 0..50 {
        c.publish(reading(0, i));
    }
    for i in 0..50 {
        match s.poll(&c) {
            PollOutcome::Data(r) => assert_eq!(r.gap, i),
            other => panic!("expected data at {i}, got {other:?}"),
        }
    }
    assert_eq!(s.poll(&c), PollOutcome::Empty);
}

#[test]
fn interleaved_publish_and_drain_never_duplicates_or_skips() {
    let mut c = FanoutChannel::new(4);
    let mut s = c.subscribe();
    let mut seen = Vec::new();
    let mut published = 0u32;
    for round in 0..25 {
        for _ in 0..(round % 4) {
            c.publish(reading(1, published));
            published += 1;
        }
        while let PollOutcome::Data(r) = s.poll(&c) {
            seen.push(r.gap);
        }
    }
    let expected: Vec<u32> = (0..published).collect();
    assert_eq!(seen, expected);
}

#[test]
fn subscriber_sees_nothing_published_before_subscription() {
    let mut c = FanoutChannel::new(8);
    c.publish(reading(0, 1));
    c.publish(reading(0, 2));
    let mut s = c.subscribe();
    assert_eq!(s.poll(&c), PollOutcome::Empty);
    c.publish(reading(0, 3));
    assert_eq!(s.poll(&c), PollOutcome::Data(reading(0, 3)));
}

#[test]
fn lagging_subscriber_is_told_and_skips_forward() {
    let mut c = FanoutChannel::new(5);
    let mut s = c.subscribe();
    // 8 readings published, capacity 5: the 3 oldest are overwritten.
    for i in 0..8 {
        c.publish(reading(0, i));
    }
    assert_eq!(s.poll(&c), PollOutcome::Lagged(3));
    // It resumes at the oldest retained reading and is in order from there.
    for i in 3..8 {
        assert_eq!(s.poll(&c), PollOutcome::Data(reading(0, i)));
    }
    assert_eq!(s.poll(&c), PollOutcome::Empty);
}

#[test]
fn publish_never_blocks_on_a_stalled_subscriber() {
    let mut c = FanoutChannel::new(3);
    let mut stalled = c.subscribe();
    // Far more readings than the capacity, with the subscriber never
    // draining: every publish still completes.
    for i in 0..1000 {
        c.publish(reading(0, i));
    }
    assert_eq!(stalled.poll(&c), PollOutcome::Lagged(997));
    assert_eq!(stalled.poll(&c), PollOutcome::Data(reading(0, 997)));
}

#[test]
fn each_subscriber_has_an_independent_position() {
    let mut c = FanoutChannel::new(10);
    let mut a = c.subscribe();
    let mut b = c.subscribe();
    c.publish(reading(0, 1));
    assert_eq!(a.poll(&c), PollOutcome::Data(reading(0, 1)));
    c.publish(reading(0, 2));
    assert_eq!(a.poll(&c), PollOutcome::Data(reading(0, 2)));
    assert_eq!(b.poll(&c), PollOutcome::Data(reading(0, 1)));
    assert_eq!(b.poll(&c), PollOutcome::Data(reading(0, 2)));
    assert_eq!(a.poll(&c), PollOutcome::Empty);
    assert_eq!(b.poll(&c), PollOutcome::Empty);
}

#[test]
fn subscriber_count_tracks_subscribe_and_unsubscribe() {
    let mut c = FanoutChannel::new(2);
    assert_eq!(c.subscriber_count(), 0);
    let a = c.subscribe();
    let b = c.subscribe();
    assert_eq!(c.subscriber_count(), 2);
    c.unsubscribe(a);
    assert_eq!(c.subscriber_count(), 1);
    c.unsubscribe(b);
    assert_eq!(c.subscriber_count(), 0);
}
