use underway::bucket::elapsed_micros;
use underway::duration::{Duration, MAX_NANOS};
use underway::rounding::{divide_nearest, divide_thousandfold_nearest};

#[test]
fn quotients_are_rounded_to_the_nearest() {
    assert_eq!(divide_nearest(7, 3), 2);
    assert_eq!(divide_nearest(8, 3), 3);
    assert_eq!(divide_nearest(1, 2), 0);
    assert_eq!(divide_nearest(3, 2), 2);
    assert_eq!(divide_nearest(5, 2), 2);
    assert_eq!(divide_nearest(12, 4), 3);
    assert_eq!(divide_nearest(0, 9), 0);
    assert_eq!(divide_nearest(u128::MAX, 1), u128::MAX);
    assert_eq!(divide_nearest(u128::MAX, u128::MAX - 1), 1);
}

#[test]
fn a_duration_is_seconds_and_nanoseconds() {
    let d = Duration::new(3, 250_000_000);
    assert_eq!(d.as_secs(), 3);
    assert_eq!(d.subsec_nanos(), 250_000_000);
    assert_eq!(d.as_nanos(), 3_250_000_000);
    assert_eq!(Duration::new(1, 2_000_000_000), Duration::from_secs(3));
    assert_eq!(Duration::new(u64::MAX, 999_999_999).as_nanos(), MAX_NANOS);
    assert_eq!(MAX_NANOS, std::time::Duration::MAX.as_nanos());
}

#[test]
fn elapsed_time_can_be_negative() {
    assert_eq!(elapsed_micros(10, 25), 15);
    assert_eq!(elapsed_micros(25, 10), -15);
    assert_eq!(elapsed_micros(i64::MAX, i64::MIN), -18_446_744_073_709_551_615);
}

#[test]
fn a_thousandfold_is_divided_without_overflow() {
    assert_eq!(divide_thousandfold_nearest(7, 3, 10_000), Some(2333));
    assert_eq!(divide_thousandfold_nearest(8, 3, 10_000), Some(2667));
    assert_eq!(divide_thousandfold_nearest(1, 2000, 10_000), Some(0));
    assert_eq!(divide_thousandfold_nearest(3, 2000, 10_000), Some(2));
    let half = 1u128 << 126;
    assert_eq!(divide_thousandfold_nearest(half, 2 * half, 10_000), Some(500));
    assert_eq!(divide_thousandfold_nearest(half / 2, 2 * half, 249), None);
    assert_eq!(divide_thousandfold_nearest(half / 2, 2 * half, 250), Some(250));
    assert_eq!(divide_thousandfold_nearest(u128::MAX, 1, u128::MAX / 2), None);
}
