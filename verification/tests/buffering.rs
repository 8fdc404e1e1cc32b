use slog_loggly::buffer::BatchBuffer;
use slog_loggly::config::validate;
use slog_loggly::error::ConfigError;
use slog_loggly::inner::InnerLogglyDrain;
use slog_loggly::record::LogRecord;
use slog_loggly::trigger::FlushClock;

fn unit(text: &str) -> Vec<u8> {
    text.as_bytes().to_vec()
}

fn inner(capacity: usize) -> InnerLogglyDrain {
    InnerLogglyDrain::from_parts("http://example.test/".to_string(), BatchBuffer::new(capacity))
}

#[test]
fn buffer_starts_empty() {
    let buffer = BatchBuffer::new(3);
    assert_eq!(buffer.length(), 0);
    assert_eq!(buffer.capacity(), 3);
    assert!(buffer.is_empty());
    assert!(!buffer.is_full());
}

#[test]
fn buffer_append_grows_by_one() {
    let mut buffer = BatchBuffer::new(3);
    buffer.append(unit("a"));
    assert_eq!(buffer.length(), 1);
    assert!(!buffer.is_empty());
    buffer.append(unit("b"));
    assert_eq!(buffer.length(), 2);
    assert!(!buffer.is_full());
    buffer.append(unit("c"));
    assert_eq!(buffer.length(), 3);
    assert!(buffer.is_full());
}

#[test]
fn buffer_drain_all_is_first_in_first_out() {
    let mut buffer = BatchBuffer::new(4);
    buffer.append(unit("one"));
    buffer.append(unit("two"));
    buffer.append(unit("three"));
    let batch = buffer.drain_all();
    assert_eq!(batch.units, vec![unit("one"), unit("two"), unit("three")]);
    assert_eq!(buffer.length(), 0);
    assert!(buffer.is_empty());
    assert_eq!(buffer.capacity(), 4);
}

#[test]
fn buffer_drain_all_of_nothing() {
    let mut buffer = BatchBuffer::new(1);
    assert!(buffer.drain_all().units.is_empty());
    assert_eq!(buffer.length(), 0);
}

#[test]
fn buffer_is_reusable_after_drain() {
    let mut buffer = BatchBuffer::new(2);
    buffer.append(unit("a"));
    buffer.append(unit("b"));
    assert_eq!(buffer.drain_all().units, vec![unit("a"), unit("b")]);
    buffer.append(unit("c"));
    assert_eq!(buffer.drain_all().units, vec![unit("c")]);
}

#[test]
fn clock_is_due_once_the_interval_has_passed() {
    let clock = FlushClock::new(5000);
    assert_eq!(clock.interval(), 5000);
    assert_eq!(clock.last_flush(), 0);
    assert!(!clock.due(0));
    assert!(!clock.due(4999));
    assert!(clock.due(5000));
    assert!(clock.due(5001));
    assert!(clock.due(u64::MAX));
}

#[test]
fn clock_reset_restarts_the_interval() {
    let mut clock = FlushClock::new(5000);
    clock.reset(1200);
    assert_eq!(clock.last_flush(), 1200);
    assert_eq!(clock.interval(), 5000);
    assert!(!clock.due(5000));
    assert!(!clock.due(6199));
    assert!(clock.due(6200));
}

#[test]
fn clock_remaining_counts_down_to_zero() {
    let mut clock = FlushClock::new(5000);
    clock.reset(1000);
    assert_eq!(clock.remaining(1000), 5000);
    assert_eq!(clock.remaining(1001), 4999);
    assert_eq!(clock.remaining(5999), 1);
    assert_eq!(clock.remaining(6000), 0);
    assert_eq!(clock.remaining(9000), 0);
}

#[test]
fn clock_copes_with_a_time_before_the_last_flush() {
    let mut clock = FlushClock::new(5000);
    clock.reset(1000);
    assert!(!clock.due(400));
    assert_eq!(clock.remaining(400), 5600);
}

#[test]
fn clock_remaining_is_cut_to_the_largest_value() {
    let mut clock = FlushClock::new(u64::MAX);
    clock.reset(10);
    assert_eq!(clock.remaining(10), u64::MAX);
    assert_eq!(clock.remaining(3), u64::MAX);
    assert_eq!(clock.remaining(11), u64::MAX - 1);
    assert!(!clock.due(u64::MAX));
}

#[test]
fn clock_with_no_interval_is_always_due() {
    let mut clock = FlushClock::new(0);
    assert!(clock.due(0));
    clock.reset(77);
    assert!(clock.due(77));
    assert_eq!(clock.remaining(77), 0);
    assert!(!clock.due(76));
    assert_eq!(clock.remaining(76), 1);
}

#[test]
fn validate_accepts_a_positive_capacity_with_an_endpoint() {
    assert_eq!(validate(1, &Some("http://example.test/".to_string())), Ok(()));
    assert_eq!(validate(usize::MAX, &Some(String::new())), Ok(()));
}

#[test]
fn validate_refuses_a_zero_capacity_first() {
    assert_eq!(validate(0, &Some("http://example.test/".to_string())), Err(ConfigError::ZeroCapacity));
    assert_eq!(validate(0, &None), Err(ConfigError::ZeroCapacity));
}

#[test]
fn validate_refuses_a_missing_endpoint() {
    assert_eq!(validate(1, &None), Err(ConfigError::InvalidEndpoint));
    assert_eq!(validate(64, &None), Err(ConfigError::InvalidEndpoint));
}

#[test]
fn inner_new_resolves_the_endpoint() {
    let drain = InnerLogglyDrain::new("abc".to_string(), "rust".to_string(), 16);
    assert_eq!(drain.url(), "http://logs-01.loggly.com/bulk/abc/tag/rust");
    assert_eq!(drain.capacity(), 16);
    assert_eq!(drain.buffered(), 0);
}

#[test]
fn inner_try_new_refuses_a_zero_capacity() {
    let made = InnerLogglyDrain::try_new("abc".to_string(), "rust".to_string(), 0);
    assert!(matches!(made, Err(ConfigError::ZeroCapacity)));
}

#[test]
fn inner_try_new_builds_what_new_builds() {
    let made = InnerLogglyDrain::try_new("my token".to_string(), "rust".to_string(), 3);
    match made {
        Ok(drain) => {
            assert_eq!(drain.url(), "http://logs-01.loggly.com/bulk/my%20token/tag/rust");
            assert_eq!(drain.capacity(), 3);
            assert_eq!(drain.buffered(), 0);
        }
        Err(error) => panic!("unexpected error: {:?}", error),
    }
}

#[test]
fn inner_from_parts_keeps_url_and_buffer() {
    let mut buffer = BatchBuffer::new(5);
    buffer.append(unit("kept"));
    let mut drain = InnerLogglyDrain::from_parts("http://example.test/x".to_string(), buffer);
    assert_eq!(drain.url(), "http://example.test/x");
    assert_eq!(drain.capacity(), 5);
    assert_eq!(drain.buffered(), 1);
    assert_eq!(drain.flush().map(|batch| batch.units), Some(vec![unit("kept")]));
}

#[test]
fn inner_accept_buffers_below_capacity() {
    let mut drain = inner(3);
    assert!(drain.accept(unit("a")).is_none());
    assert_eq!(drain.buffered(), 1);
    assert!(drain.accept(unit("b")).is_none());
    assert_eq!(drain.buffered(), 2);
}

#[test]
fn inner_accept_cuts_when_the_buffer_fills_up() {
    let mut drain = inner(3);
    assert!(drain.accept(unit("a")).is_none());
    assert!(drain.accept(unit("b")).is_none());
    let batch = drain.accept(unit("c")).map(|batch| batch.units);
    assert_eq!(batch, Some(vec![unit("a"), unit("b"), unit("c")]));
    assert_eq!(drain.buffered(), 0);
}

#[test]
fn inner_accept_with_capacity_one_cuts_every_time() {
    let mut drain = inner(1);
    assert_eq!(drain.accept(unit("a")).map(|batch| batch.units), Some(vec![unit("a")]));
    assert_eq!(drain.buffered(), 0);
    assert_eq!(drain.accept(unit("b")).map(|batch| batch.units), Some(vec![unit("b")]));
    assert_eq!(drain.buffered(), 0);
}

#[test]
fn inner_accept_on_a_full_buffer_cuts_first() {
    let mut buffer = BatchBuffer::new(2);
    buffer.append(unit("a"));
    buffer.append(unit("b"));
    let mut drain = InnerLogglyDrain::from_parts("http://example.test/".to_string(), buffer);
    let batch = drain.accept(unit("c")).map(|batch| batch.units);
    assert_eq!(batch, Some(vec![unit("a"), unit("b")]));
    assert_eq!(drain.buffered(), 1);
    assert_eq!(drain.flush().map(|batch| batch.units), Some(vec![unit("c")]));
}

#[test]
fn inner_accept_on_a_full_buffer_of_capacity_one() {
    let mut buffer = BatchBuffer::new(1);
    buffer.append(unit("a"));
    let mut drain = InnerLogglyDrain::from_parts("http://example.test/".to_string(), buffer);
    assert_eq!(drain.accept(unit("b")).map(|batch| batch.units), Some(vec![unit("a")]));
    assert_eq!(drain.buffered(), 1);
    assert_eq!(drain.accept(unit("c")).map(|batch| batch.units), Some(vec![unit("b")]));
    assert_eq!(drain.buffered(), 1);
}

#[test]
fn inner_flush_cuts_what_is_buffered() {
    let mut drain = inner(10);
    drain.accept(unit("a"));
    drain.accept(unit("b"));
    assert_eq!(drain.flush().map(|batch| batch.units), Some(vec![unit("a"), unit("b")]));
    assert_eq!(drain.buffered(), 0);
}

#[test]
fn inner_flush_of_an_empty_buffer_ships_nothing() {
    let mut drain = inner(10);
    assert!(drain.flush().is_none());
    assert!(drain.flush().is_none());
    assert_eq!(drain.buffered(), 0);
}

#[test]
fn inner_log_encodes_and_buffers_a_record() {
    let mut drain = inner(2);
    assert!(drain.log(&LogRecord::new("a".to_string())).is_none());
    assert_eq!(drain.buffered(), 1);
    let batch = drain.log(&LogRecord::new("b".to_string())).map(|batch| batch.units);
    assert_eq!(batch, Some(vec![unit("{\"message\":\"a\"}"), unit("{\"message\":\"b\"}")]));
    assert_eq!(drain.buffered(), 0);
}

#[test]
fn inner_log_takes_a_tagged_record_as_a_flush_signal() {
    let mut drain = inner(5);
    assert!(drain.log(&LogRecord::flush_signal()).is_none());
    assert_eq!(drain.buffered(), 0);
    drain.log(&LogRecord::new("a".to_string()));
    let batch = drain.log(&LogRecord::flush_signal()).map(|batch| batch.units);
    assert_eq!(batch, Some(vec![unit("{\"message\":\"a\"}")]));
    assert_eq!(drain.buffered(), 0);
}
