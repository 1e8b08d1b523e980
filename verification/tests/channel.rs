use air::channel::{Channel, MAX_READERS};

#[test]
fn try_read_is_none_before_any_publish() {
    let ch: Channel<u16> = Channel::new();
    assert_eq!(ch.try_read(), None);
}

#[test]
fn try_read_returns_most_recent_publish() {
    let mut ch: Channel<u16> = Channel::new();
    ch.publish(7);
    assert_eq!(ch.try_read(), Some(7));
    ch.publish(9);
    assert_eq!(ch.try_read(), Some(9));
    // A second peek delivers the same value again.
    assert_eq!(ch.try_read(), Some(9));
}

#[test]
fn try_read_ignores_reader_cursors() {
    let mut ch: Channel<u16> = Channel::new();
    let mut reader = ch.add_reader().unwrap();
    ch.publish(3);
    // The waiting reader consumes the value ...
    assert_eq!(ch.poll_change(&mut reader), Some(3));
    // ... but a non-waiting read still sees it.
    assert_eq!(ch.try_read(), Some(3));
}

#[test]
fn poll_change_delivers_only_the_most_recent_value() {
    let mut ch: Channel<u16> = Channel::new();
    let mut reader = ch.add_reader().unwrap();
    ch.publish(1);
    ch.publish(2);
    ch.publish(3);
    // Three publishes since the last observation: only the newest arrives.
    assert_eq!(ch.poll_change(&mut reader), Some(3));
    // Nothing new afterwards: the reader would stay suspended.
    assert_eq!(ch.poll_change(&mut reader), None);
}

#[test]
fn poll_change_suspends_before_any_publish() {
    let mut ch: Channel<u16> = Channel::new();
    let mut reader = ch.add_reader().unwrap();
    assert_eq!(ch.poll_change(&mut reader), None);
}

#[test]
fn fresh_reader_sees_an_already_published_value() {
    let mut ch: Channel<u16> = Channel::new();
    ch.publish(42);
    let mut reader = ch.add_reader().unwrap();
    assert_eq!(ch.poll_change(&mut reader), Some(42));
}

#[test]
fn reader_count_is_bounded() {
    let mut ch: Channel<u16> = Channel::new();
    for _ in 0..MAX_READERS {
        assert!(ch.add_reader().is_some());
    }
    assert!(ch.add_reader().is_none());
}

#[test]
fn missed_publishes_deliver_the_latest_value_only() {
    // A reader consumes a value, then its consumer is away while more
    // publishes arrive; the first read afterwards carries the latest value,
    // not a buffered pre-disconnect one.
    let mut ch: Channel<u16> = Channel::new();
    let mut reader = ch.add_reader().unwrap();
    ch.publish(10);
    assert_eq!(ch.poll_change(&mut reader), Some(10));
    ch.publish(11);
    ch.publish(12);
    ch.publish(13);
    assert_eq!(ch.poll_change(&mut reader), Some(13));
    assert_eq!(ch.poll_change(&mut reader), None);
}

#[test]
fn independent_readers_have_independent_cursors() {
    let mut ch: Channel<u16> = Channel::new();
    let mut first = ch.add_reader().unwrap();
    let mut second = ch.add_reader().unwrap();
    ch.publish(5);
    assert_eq!(ch.poll_change(&mut first), Some(5));
    // The other reader has not observed anything yet.
    assert_eq!(ch.poll_change(&mut second), Some(5));
    assert_eq!(ch.poll_change(&mut first), None);
    assert_eq!(ch.poll_change(&mut second), None);
}
