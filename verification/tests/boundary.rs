use async_timing_util::{
    boundary_at_or_before, get_timelength_in_ms, interval_before, plan_wait_until,
    plan_wait_until_timelength, Timelength, TimingError, Wait,
};

fn sample_timestamps() -> Vec<u128> {
    vec![
        0,
        1,
        999,
        1_000,
        59_999,
        60_000,
        3_599_999,
        3_600_000,
        2_591_999_999,
        2_592_000_000,
        1_700_000_000_000,
        1_700_000_410_123,
        1_782_345_678_901,
        u64::MAX as u128,
        u128::MAX - 2_592_000_000,
        u128::MAX,
    ]
}

#[test]
fn boundary_is_aligned_and_within_one_period() {
    for timelength in Timelength::catalog() {
        let period: u128 = get_timelength_in_ms(timelength);
        for ts in sample_timestamps() {
            let end: u128 = boundary_at_or_before(ts, timelength);
            assert_eq!(end, ts - ts % period);
            assert_eq!(end % period, 0);
            assert!(end <= ts);
            assert!(ts - end < period);
        }
    }
}

#[test]
fn boundary_examples() {
    assert_eq!(boundary_at_or_before(0, Timelength::OneSecond), 0);
    assert_eq!(boundary_at_or_before(999, Timelength::OneSecond), 0);
    assert_eq!(boundary_at_or_before(1_000, Timelength::OneSecond), 1_000);
    assert_eq!(boundary_at_or_before(1_700_000_410_123, Timelength::OneMinute), 1_700_000_400_000);
    assert_eq!(boundary_at_or_before(1_700_000_410_123, Timelength::OneHour), 1_699_999_200_000);
    assert_eq!(boundary_at_or_before(1_700_000_410_123, Timelength::OneDay), 1_699_920_000_000);
}

#[test]
fn interval_on_a_boundary_is_the_one_just_closed() {
    for timelength in Timelength::catalog() {
        let period: u128 = get_timelength_in_ms(timelength);
        for k in [1u128, 2, 3, 17, 655_000, 1_000_000_007] {
            assert_eq!(interval_before(k * period, timelength), Ok(((k - 1) * period, k * period)));
        }
    }
}

#[test]
fn interval_at_twelve_past_three_is_two_to_three() {
    let hour: u128 = 3_600_000;
    let day_start: u128 = 1_699_920_000_000;
    let ts: u128 = day_start + 3 * hour + 12 * 60_000;
    assert_eq!(
        interval_before(ts, Timelength::OneHour),
        Ok((day_start + 2 * hour, day_start + 3 * hour))
    );
}

#[test]
fn interval_is_one_period_long_and_closed() {
    for timelength in Timelength::catalog() {
        let period: u128 = get_timelength_in_ms(timelength);
        for ts in sample_timestamps() {
            match interval_before(ts, timelength) {
                Ok((start, end)) => {
                    assert!(ts >= period);
                    assert_eq!(end - start, period);
                    assert_eq!(end % period, 0);
                    assert!(end <= ts && ts - end < period);
                }
                Err(e) => {
                    assert_eq!(e, TimingError::NoCompleteInterval);
                    assert!(ts < period);
                }
            }
        }
    }
}

#[test]
fn no_interval_in_the_first_period() {
    let none = Err(TimingError::NoCompleteInterval);
    assert_eq!(interval_before(0, Timelength::OneSecond), none);
    assert_eq!(interval_before(999, Timelength::OneSecond), none);
    assert_eq!(interval_before(1_000, Timelength::OneSecond), Ok((0, 1_000)));
    assert_eq!(interval_before(2_591_999_999, Timelength::ThirtyDays), none);
    assert_eq!(interval_before(2_592_000_000, Timelength::ThirtyDays), Ok((0, 2_592_000_000)));
}

#[test]
fn interval_is_the_same_within_one_period() {
    let first = interval_before(1_700_000_400_000, Timelength::OneMinute);
    assert_eq!(first, Ok((1_700_000_340_000, 1_700_000_400_000)));
    for later in [1_700_000_400_001u128, 1_700_000_410_123, 1_700_000_459_999] {
        assert_eq!(interval_before(later, Timelength::OneMinute), first);
    }
    assert_eq!(
        interval_before(1_700_000_460_000, Timelength::OneMinute),
        Ok((1_700_000_400_000, 1_700_000_460_000))
    );
}

#[test]
fn wait_for_the_next_period_when_the_offset_has_passed() {
    let now: u128 = 1_700_000_410_000;
    assert_eq!(now % 60_000, 10_000);
    assert_eq!(
        plan_wait_until_timelength(now, Timelength::OneMinute, 500),
        Some(Wait { delay_ms: Some(50_500), timestamp_ms: now + 50_500 })
    );
}

#[test]
fn wait_within_the_period_when_the_offset_is_ahead() {
    let now: u128 = 1_700_000_410_000;
    assert_eq!(
        plan_wait_until_timelength(now, Timelength::OneMinute, 20_000),
        Some(Wait { delay_ms: Some(10_000), timestamp_ms: now + 10_000 })
    );
}

#[test]
fn wait_when_the_offset_equals_the_time_passed() {
    let now: u128 = 1_700_000_410_000;
    assert_eq!(
        plan_wait_until_timelength(now, Timelength::OneMinute, 10_000),
        Some(Wait { delay_ms: Some(60_000), timestamp_ms: now + 60_000 })
    );
    assert_eq!(
        plan_wait_until_timelength(now, Timelength::OneMinute, 10_001),
        Some(Wait { delay_ms: Some(1), timestamp_ms: now + 1 })
    );
}

#[test]
fn wait_without_offset_runs_to_the_next_boundary() {
    let boundary: u128 = 1_700_000_400_000;
    assert_eq!(
        plan_wait_until_timelength(boundary + 1, Timelength::OneMinute, 0),
        Some(Wait { delay_ms: Some(59_999), timestamp_ms: boundary + 60_000 })
    );
    assert_eq!(
        plan_wait_until_timelength(boundary + 59_999, Timelength::OneMinute, 0),
        Some(Wait { delay_ms: Some(1), timestamp_ms: boundary + 60_000 })
    );
}

#[test]
fn wait_without_offset_on_a_boundary_lasts_a_whole_period() {
    let boundary: u128 = 1_700_000_400_000;
    assert_eq!(
        plan_wait_until_timelength(boundary, Timelength::OneMinute, 0),
        Some(Wait { delay_ms: Some(60_000), timestamp_ms: boundary + 60_000 })
    );
}

#[test]
fn wait_with_an_offset_longer_than_the_period() {
    let now: u128 = 1_700_000_410_000;
    assert_eq!(
        plan_wait_until_timelength(now, Timelength::OneMinute, 150_000),
        Some(Wait { delay_ms: Some(140_000), timestamp_ms: now + 140_000 })
    );
}

#[test]
fn wait_follows_the_two_branch_rule() {
    for timelength in Timelength::catalog() {
        let period: u128 = get_timelength_in_ms(timelength);
        for now in [0u128, 1, 999, 1_000, 60_000, 1_700_000_410_123, 1_782_345_678_901] {
            for additional in [0u128, 1, 500, 999, 1_000, 20_000, 86_400_000, 5_000_000_000] {
                let remainder: u128 = now % period;
                let delay: u128 = if remainder < additional {
                    additional - remainder
                } else {
                    period - remainder + additional
                };
                let wait = plan_wait_until_timelength(now, timelength, additional).unwrap();
                assert_eq!(wait, Wait { delay_ms: Some(delay), timestamp_ms: now + delay });
                assert!(delay > 0);
                assert_eq!((wait.timestamp_ms - additional) % period, 0);
            }
        }
    }
}

#[test]
fn no_wait_where_the_timestamp_does_not_fit() {
    assert_eq!(plan_wait_until_timelength(u128::MAX, Timelength::OneSecond, 0), None);
    // the last boundary of one second that fits lies 455 ms before the last timestamp
    assert_eq!(plan_wait_until_timelength(u128::MAX - 455, Timelength::OneSecond, 0), None);
    assert_eq!(plan_wait_until_timelength(u128::MAX - 455, Timelength::OneSecond, 456), None);
    assert_eq!(
        plan_wait_until_timelength(u128::MAX - 455, Timelength::OneSecond, 455),
        Some(Wait { delay_ms: Some(455), timestamp_ms: u128::MAX })
    );
    assert_eq!(
        plan_wait_until_timelength(u128::MAX - 999, Timelength::OneSecond, 0),
        Some(Wait { delay_ms: Some(544), timestamp_ms: u128::MAX - 455 })
    );
    assert_eq!(plan_wait_until_timelength(1_000, Timelength::OneSecond, u128::MAX), None);
    assert_eq!(plan_wait_until_timelength(1_600, Timelength::OneSecond, u128::MAX - 999), None);
    assert_eq!(
        plan_wait_until_timelength(1_700_000_410_123, Timelength::ThirtyDays, u128::MAX),
        None
    );
}

#[test]
fn wait_that_ends_just_below_the_last_timestamp() {
    assert_eq!(
        plan_wait_until_timelength(1, Timelength::OneSecond, u128::MAX - 1),
        Some(Wait { delay_ms: Some(u128::MAX - 2), timestamp_ms: u128::MAX - 1 })
    );
    assert_eq!(
        plan_wait_until_timelength(0, Timelength::OneSecond, u128::MAX),
        Some(Wait { delay_ms: Some(u128::MAX), timestamp_ms: u128::MAX })
    );
    assert_eq!(
        plan_wait_until_timelength(600, Timelength::OneSecond, u128::MAX - 500),
        Some(Wait { delay_ms: Some(u128::MAX - 1_100), timestamp_ms: u128::MAX - 500 })
    );
}

#[test]
fn wait_until_a_past_target_does_not_suspend() {
    let wait = plan_wait_until(1_700_000_410_000, 1_700_000_409_999);
    assert_eq!(wait, Wait { delay_ms: None, timestamp_ms: 1_700_000_410_000 });
    assert_eq!(wait.sleep_ms(), None);
    assert_eq!(plan_wait_until(5, 0), Wait { delay_ms: None, timestamp_ms: 5 });
    assert_eq!(plan_wait_until(u128::MAX, 0), Wait { delay_ms: None, timestamp_ms: u128::MAX });
}

#[test]
fn wait_until_a_target_ahead_lasts_the_difference() {
    let wait = plan_wait_until(1_700_000_410_000, 1_700_000_415_250);
    assert_eq!(wait, Wait { delay_ms: Some(5_250), timestamp_ms: 1_700_000_410_000 });
    assert_eq!(wait.sleep_ms(), Some(5_250));
    assert_eq!(plan_wait_until(0, u128::MAX), Wait { delay_ms: Some(u128::MAX), timestamp_ms: 0 });
}

#[test]
fn wait_until_now_is_an_empty_suspension() {
    let wait = plan_wait_until(1_700_000_410_000, 1_700_000_410_000);
    assert_eq!(wait, Wait { delay_ms: Some(0), timestamp_ms: 1_700_000_410_000 });
    assert_eq!(wait.sleep_ms(), Some(0));
}

#[test]
fn sleep_takes_the_low_64_bits_of_the_delay() {
    let below = Wait { delay_ms: Some(u64::MAX as u128), timestamp_ms: 0 };
    assert_eq!(below.sleep_ms(), Some(u64::MAX));
    let above = Wait { delay_ms: Some((1u128 << 64) + 7), timestamp_ms: 0 };
    assert_eq!(above.sleep_ms(), Some(7));
    let exact = Wait { delay_ms: Some(1u128 << 64), timestamp_ms: 0 };
    assert_eq!(exact.sleep_ms(), Some(0));
    let most = Wait { delay_ms: Some(u128::MAX), timestamp_ms: 0 };
    assert_eq!(most.sleep_ms(), Some(u64::MAX));
}
