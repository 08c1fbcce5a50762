//! Monotonic clock samples and the elapsed time between two of them.

use vstd::prelude::*;

verus! {

/// Nanoseconds in one second.
pub const NANOS_PER_SEC: u32 = 1_000_000_000;

/// Nanoseconds in one millisecond.
pub const NANOS_PER_MILLI: u32 = 1_000_000;

/// A clock sample: whole seconds and a nanosecond part, as the kernel's
/// `struct timespec` holds them.
#[derive(Clone, Copy, Debug, PartialEq, Eq)]
pub struct TimeSpec {
    pub tv_sec: i64,
    pub tv_nsec: i64,
}

/// The seconds part of the difference, taken modulo 2^64 as an unsigned count.
pub open spec fn wrapped_secs(before: TimeSpec, after: TimeSpec) -> u64 {
    (after.tv_sec - before.tv_sec) as u64
}

/// The nanoseconds part of the difference, taken modulo 2^32 as an unsigned count.
pub open spec fn wrapped_nanos(before: TimeSpec, after: TimeSpec) -> u32 {
    (after.tv_nsec - before.tv_nsec) as u32
}

/// The difference can be taken: neither field difference overflows `i64`, and
/// carrying whole seconds out of the nanosecond part keeps the seconds in `u64`.
pub open spec fn duration_defined(before: TimeSpec, after: TimeSpec) -> bool {
    &&& i64::MIN <= after.tv_sec - before.tv_sec <= i64::MAX
    &&& i64::MIN <= after.tv_nsec - before.tv_nsec <= i64::MAX
    &&& wrapped_secs(before, after) + wrapped_nanos(before, after) / NANOS_PER_SEC
        <= u64::MAX
}

/// The elapsed time in nanoseconds as the wrapped differences give it: the
/// seconds part scaled, plus the nanosecond part. `law_elapsed_is_true_interval`
/// and `law_elapsed_when_nanos_borrow` compare it with the true interval.
pub open spec fn wrapped_elapsed_nsec(before: TimeSpec, after: TimeSpec) -> nat {
    (wrapped_secs(before, after) * (NANOS_PER_SEC as nat) + wrapped_nanos(before, after)) as nat
}

/// The elapsed time in whole milliseconds, from the wrapped differences.
pub open spec fn wrapped_elapsed_msec(before: TimeSpec, after: TimeSpec) -> nat {
    wrapped_elapsed_nsec(before, after) / (NANOS_PER_MILLI as nat)
}

/// A sample whose nanosecond part lies in `0..NANOS_PER_SEC`.
pub open spec fn normalized(t: TimeSpec) -> bool {
    0 <= t.tv_nsec < NANOS_PER_SEC
}

/// What a read of the monotonic clock can give: a time since boot, with
/// non-negative seconds and a normalized nanosecond part.
pub open spec fn clock_reading(t: TimeSpec) -> bool {
    t.tv_sec >= 0 && normalized(t)
}

/// The sample as a count of nanoseconds.
pub open spec fn total_nsec(t: TimeSpec) -> int {
    t.tv_sec * (NANOS_PER_SEC as int) + t.tv_nsec
}

/// Whether `diff_nsec` and `diff_msec` can be applied to these two samples.
pub fn diff_is_defined(before: &TimeSpec, after: &TimeSpec) -> (b: bool)
    ensures
        b == duration_defined(*before, *after),
{
    let ds = after.tv_sec as i128 - before.tv_sec as i128;
    let dn = after.tv_nsec as i128 - before.tv_nsec as i128;
    if ds < i64::MIN as i128 || ds > i64::MAX as i128 || dn < i64::MIN as i128 || dn
        > i64::MAX as i128 {
        return false;
    }
    let secs: u64 = (after.tv_sec - before.tv_sec) as u64;
    let nanos: u32 = (after.tv_nsec - before.tv_nsec) as u32;
    let carry: u64 = (nanos / NANOS_PER_SEC) as u64;
    secs <= u64::MAX - carry
}

/// Splits the wrapped difference the way a duration stores it: whole seconds
/// with the carry out of the nanoseconds, and the remaining nanoseconds.
fn split_duration(before: &TimeSpec, after: &TimeSpec) -> (r: (u64, u32))
    requires
        duration_defined(*before, *after),
    ensures
        r.1 < NANOS_PER_SEC,
        r.0 as int * (NANOS_PER_SEC as int) + r.1 == wrapped_elapsed_nsec(*before, *after),
{
    let secs: u64 = (after.tv_sec - before.tv_sec) as u64;
    let nanos: u32 = (after.tv_nsec - before.tv_nsec) as u32;
    let carry: u64 = (nanos / NANOS_PER_SEC) as u64;
    let whole: u64 = secs + carry;
    let frac: u32 = nanos % NANOS_PER_SEC;
    (whole, frac)
}

/// Elapsed nanoseconds from `before` to `after`. The seconds difference is
/// read as a `u64` and the nanoseconds difference as a `u32`, both modulo their
/// width, and nanoseconds beyond one second carry into the seconds; the laws
/// below compare the result with the true interval.
pub fn diff_nsec(before: &TimeSpec, after: &TimeSpec) -> (r: u128)
    requires
        duration_defined(*before, *after),
    ensures
        r == wrapped_elapsed_nsec(*before, *after),
{
    let (whole, frac) = split_duration(before, after);
    whole as u128 * (NANOS_PER_SEC as u128) + frac as u128
}

/// Elapsed whole milliseconds from `before` to `after`, with the differences
/// read as `diff_nsec` reads them.
pub fn diff_msec(before: &TimeSpec, after: &TimeSpec) -> (r: u128)
    requires
        duration_defined(*before, *after),
    ensures
        r == wrapped_elapsed_msec(*before, *after),
{
    let (whole, frac) = split_duration(before, after);
    let r = whole as u128 * 1000 + (frac / NANOS_PER_MILLI) as u128;
    proof {
        let w = whole as int;
        let f = frac as int;
        assert((w * 1_000_000_000 + f) / 1_000_000 == w * 1000 + f / 1_000_000)
            by (nonlinear_arith)
            requires
                0 <= f < 1_000_000_000,
                w >= 0,
        ;
    }
    r
}

/// The millisecond count is what a duration reports for these differences:
/// the seconds, with the whole seconds carried out of the nanosecond part,
/// times a thousand, plus the remaining nanoseconds in whole milliseconds.
pub proof fn law_msec_as_duration_reports(before: TimeSpec, after: TimeSpec)
    ensures
        wrapped_elapsed_msec(before, after) == (wrapped_secs(before, after) + wrapped_nanos(
            before,
            after,
        ) / NANOS_PER_SEC) * 1000 + (wrapped_nanos(before, after) % NANOS_PER_SEC)
            / NANOS_PER_MILLI,
{
    let s = wrapped_secs(before, after) as int;
    let n = wrapped_nanos(before, after) as int;
    assert((s * 1_000_000_000 + n) / 1_000_000 == (s + n / 1_000_000_000) * 1000 + (n
        % 1_000_000_000) / 1_000_000) by (nonlinear_arith)
        requires
            s >= 0,
            n >= 0,
    ;
}

/// A sample taken against itself gives zero elapsed time.
pub proof fn law_zero_elapsed_for_same_sample(t: TimeSpec)
    ensures
        duration_defined(t, t),
        wrapped_elapsed_nsec(t, t) == 0,
        wrapped_elapsed_msec(t, t) == 0,
{
}

/// For normalized samples taken in order whose nanosecond part did not go
/// down, the difference is the true elapsed time.
pub proof fn law_elapsed_is_true_interval(before: TimeSpec, after: TimeSpec)
    requires
        normalized(before),
        normalized(after),
        before.tv_sec <= after.tv_sec,
        before.tv_nsec <= after.tv_nsec,
        after.tv_sec - before.tv_sec <= i64::MAX,
    ensures
        duration_defined(before, after),
        wrapped_elapsed_nsec(before, after) == total_nsec(after) - total_nsec(before),
{
    let ds = after.tv_sec - before.tv_sec;
    let dn = after.tv_nsec - before.tv_nsec;
    assert(ds as u64 == ds);
    assert(dn as u32 == dn);
}

/// For normalized samples taken in order whose nanosecond part went down, the
/// nanosecond difference wraps modulo 2^32: the result exceeds the true elapsed
/// time by exactly 2^32 nanoseconds.
pub proof fn law_elapsed_when_nanos_borrow(before: TimeSpec, after: TimeSpec)
    requires
        normalized(before),
        normalized(after),
        before.tv_sec < after.tv_sec,
        after.tv_nsec < before.tv_nsec,
        after.tv_sec - before.tv_sec <= i64::MAX,
    ensures
        duration_defined(before, after),
        wrapped_elapsed_nsec(before, after) == total_nsec(after) - total_nsec(before) + 0x1_0000_0000,
{
    let ds = after.tv_sec - before.tv_sec;
    assert(ds as u64 == ds);
    let d: i64 = (after.tv_nsec - before.tv_nsec) as i64;
    assert(-1_000_000_000 < d < 0);
    assert((d as u32) == d + 0x1_0000_0000) by (bit_vector)
        requires
            -1_000_000_000i64 < d < 0i64,
    ;
}

/// The elapsed nanoseconds between two clock reads, where both succeeded and
/// their difference is defined.
pub open spec fn elapsed_between_spec(before: Option<TimeSpec>, after: Option<TimeSpec>) -> Option<
    u128,
> {
    match (before, after) {
        (Some(b), Some(a)) => if duration_defined(b, a) {
            Some(wrapped_elapsed_nsec(b, a) as u128)
        } else {
            None
        },
        _ => None,
    }
}

/// Decides the outcome of a timing from its two clock reads.
pub fn elapsed_nsec_between(before: Option<TimeSpec>, after: Option<TimeSpec>) -> (r: Option<u128>)
    ensures
        r == elapsed_between_spec(before, after),
{
    match (before, after) {
        (Some(b), Some(a)) => {
            if diff_is_defined(&b, &a) {
                Some(diff_nsec(&b, &a))
            } else {
                None
            }
        },
        _ => None,
    }
}

/// A clock read that, where it succeeded, holds a clock reading.
pub open spec fn read_outcome(r: Option<TimeSpec>) -> bool {
    r matches Some(t) ==> clock_reading(t)
}

/// Hands `x` through `std::hint::black_box`, which returns its argument
/// unchanged while keeping the optimizer from assuming anything of it.
#[verifier::external_body]
fn opaque(x: u64) -> (r: u64)
    ensures
        r == x,
{
    std::hint::black_box(x)
}

/// Spins through `nloop` empty iterations: a fixed amount of busy work that
/// the optimizer does not remove.
pub fn load(nloop: u64) {
    let mut i: u64 = 0;
    while i < nloop
        invariant
            i <= nloop,
        decreases nloop - i,
    {
        i = opaque(i) + 1;
    }
}

} // verus!
