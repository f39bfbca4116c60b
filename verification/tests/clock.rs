use async_timing_util::{
    get_timelength_in_ms, interval_before, last_timelength_interval, unix_timestamp_ms,
    Timelength, TimingError,
};

// 2020-01-01T00:00:00Z
const YEAR_2020_MS: u128 = 1_577_836_800_000;

#[test]
fn clock_reads_a_time_after_2020() {
    let ts: u128 = unix_timestamp_ms().unwrap();
    assert!(ts > YEAR_2020_MS);
}

#[test]
fn clock_does_not_run_backwards_by_much() {
    let first: u128 = unix_timestamp_ms().unwrap();
    let second: u128 = unix_timestamp_ms().unwrap();
    assert!(second + 60_000 > first);
}

#[test]
fn clock_agrees_with_the_system_time() {
    let before: u128 = std::time::SystemTime::now()
        .duration_since(std::time::UNIX_EPOCH)
        .unwrap()
        .as_millis();
    let ts: u128 = unix_timestamp_ms().unwrap();
    assert!(ts + 60_000 > before);
    assert!(ts < before + 60_000);
}

#[test]
fn last_interval_is_a_closed_window_of_the_timelength() {
    for timelength in Timelength::catalog() {
        let period: u128 = get_timelength_in_ms(timelength);
        let before: u128 = unix_timestamp_ms().unwrap();
        let (start, end) = last_timelength_interval(timelength).unwrap();
        let after: u128 = unix_timestamp_ms().unwrap();
        assert_eq!(end - start, period);
        assert_eq!(end % period, 0);
        assert!(end <= after);
        assert!(before < end + period + 60_000);
    }
}

#[test]
fn last_interval_is_the_one_before_the_clock_reading() {
    let before = interval_before(unix_timestamp_ms().unwrap(), Timelength::ThirtyDays);
    let window = last_timelength_interval(Timelength::ThirtyDays).unwrap();
    let after = interval_before(unix_timestamp_ms().unwrap(), Timelength::ThirtyDays);
    assert!(Ok(window) == before || Ok(window) == after);
}

#[test]
fn last_interval_twice_within_one_period_is_the_same() {
    let first = last_timelength_interval(Timelength::ThirtyDays);
    let second = last_timelength_interval(Timelength::ThirtyDays);
    let third = last_timelength_interval(Timelength::ThirtyDays);
    // at most one boundary of thirty days falls between the calls
    assert!(first == second || second == third);
}

#[test]
fn a_running_clock_gives_no_error() {
    assert_ne!(unix_timestamp_ms(), Err(TimingError::ClockBeforeEpoch));
    for timelength in Timelength::catalog() {
        assert!(last_timelength_interval(timelength).is_ok());
    }
}
