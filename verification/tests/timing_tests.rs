use linux_practice::timing::{diff_is_defined, diff_msec, diff_nsec, load, TimeSpec};

fn ts(tv_sec: i64, tv_nsec: i64) -> TimeSpec {
    TimeSpec { tv_sec, tv_nsec }
}

#[test]
fn diff_nsec_of_ordered_samples() {
    assert_eq!(diff_nsec(&ts(1, 500), &ts(3, 700)), 2_000_000_200);
}

#[test]
fn diff_msec_of_ordered_samples() {
    assert_eq!(diff_msec(&ts(0, 0), &ts(1, 0)), 1000);
    assert_eq!(diff_msec(&ts(0, 0), &ts(0, 999_999)), 0);
    assert_eq!(diff_msec(&ts(5, 250_000_000), &ts(7, 750_000_000)), 2500);
}

#[test]
fn diff_of_same_sample_is_zero() {
    let t = ts(123, 456_789);
    assert!(diff_is_defined(&t, &t));
    assert_eq!(diff_nsec(&t, &t), 0);
    assert_eq!(diff_msec(&t, &t), 0);
}

#[test]
fn diff_wraps_when_nanoseconds_borrow() {
    // The nanosecond difference is negative and wraps modulo 2^32.
    let before = ts(1, 900_000_000);
    let after = ts(2, 100_000_000);
    assert_eq!(diff_nsec(&before, &after), 4_494_967_296);
    assert_eq!(diff_msec(&before, &after), 4494);
    assert_eq!(diff_nsec(&before, &after), 200_000_000 + (1u128 << 32));
}

#[test]
fn diff_msec_is_diff_nsec_scaled() {
    let pairs = [
        (ts(0, 0), ts(10, 123_456_789)),
        (ts(1, 900_000_000), ts(2, 100_000_000)),
        (ts(-5, 3), ts(8, 1)),
    ];
    for (b, a) in pairs.iter() {
        assert_eq!(diff_msec(b, a), diff_nsec(b, a) / 1_000_000);
    }
}

#[test]
fn diff_undefined_on_overflow() {
    assert!(!diff_is_defined(&ts(i64::MIN, 0), &ts(i64::MAX, 0)));
    assert!(!diff_is_defined(&ts(0, i64::MIN), &ts(0, 1)));
    // seconds wrap to u64::MAX, nanoseconds to 2^32 - 1: the carry overflows
    assert!(!diff_is_defined(&ts(0, 0), &ts(-1, -1)));
    // seconds wrap to u64::MAX with no carry: defined
    assert!(diff_is_defined(&ts(0, 0), &ts(-1, 0)));
    assert_eq!(diff_nsec(&ts(0, 0), &ts(-1, 0)), (u64::MAX as u128) * 1_000_000_000);
}

#[test]
fn load_returns() {
    load(0);
    load(1000);
}
