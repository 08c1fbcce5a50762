//! The cache experiment: its command line, the number of sweeps over the
//! buffer, the sweep itself (one write per cache line), and its timing.

use vstd::prelude::*;
use crate::timeline::{Event, Timeline};
use crate::timing::{TimeSpec, elapsed_between_spec, elapsed_nsec_between, read_outcome};

verus! {

/// The cache line size the sweep steps by.
pub const CACHE_LINE_SIZE: usize = 64;

/// The number of cache-line writes the experiment times in all.
pub const NLOOP: u64 = 4 * 1024 * 1024 * 1024;

/// Why a command line is refused.
#[derive(Clone, Copy, Debug, PartialEq, Eq)]
pub enum CacheArgError {
    /// Not exactly one number was given.
    Usage,
    /// The buffer size is zero.
    ZeroSize,
}

/// The buffer size in bytes asked for by a command line holding one number of
/// kibibytes.
pub open spec fn cache_buffer_size_spec(args: Seq<usize>) -> Result<usize, CacheArgError> {
    if args.len() != 1 {
        Err(CacheArgError::Usage)
    } else if args[0] == 0 {
        Err(CacheArgError::ZeroSize)
    } else {
        Ok((args[0] * 1024) as usize)
    }
}

/// Reads the buffer size, given in kibibytes, from the numbers of the command line.
pub fn cache_buffer_size(args: &Vec<usize>) -> (r: Result<usize, CacheArgError>)
    requires
        args@.len() == 1 ==> args@[0] * 1024 <= usize::MAX,
    ensures
        r == cache_buffer_size_spec(args@),
{
    if args.len() != 1 {
        return Err(CacheArgError::Usage);
    }
    let size = args[0] * 1024;
    if size == 0 {
        return Err(CacheArgError::ZeroSize);
    }
    Ok(size)
}

/// How many sweeps over a `size`-byte buffer make `NLOOP` cache-line writes,
/// rounded down.
pub fn cache_rounds(size: usize) -> (r: u64)
    requires
        size >= CACHE_LINE_SIZE,
    ensures
        r == NLOOP / ((size / CACHE_LINE_SIZE) as u64),
{
    let lines = (size / CACHE_LINE_SIZE) as u64;
    NLOOP / lines
}

/// The buffer after a zero has been written at every multiple of `step`.
pub open spec fn stride_zeroed(s: Seq<u8>, step: usize) -> Seq<u8> {
    Seq::new(s.len(), |i: int| if i % (step as int) == 0 { 0u8 } else { s[i] })
}

/// Writes a zero at every multiple of `step` in `buf`: one write per cache
/// line when `step` is the line size.
pub fn touch_stride(buf: &mut [u8], step: usize)
    requires
        step > 0,
    ensures
        final(buf)@ == stride_zeroed(old(buf)@, step),
{
    let len = buf.len();
    if len == 0 {
        assert(buf@ =~= stride_zeroed(old(buf)@, step));
        return;
    }
    let mut j: usize = 0;
    assert(j % step == 0);
    loop
        invariant_except_break
            j < len,
            j % step == 0,
            forall|i: int| 0 <= i < j ==> #[trigger] buf@[i] == stride_zeroed(old(buf)@, step)[i],
            forall|i: int| j <= i < len ==> #[trigger] buf@[i] == old(buf)@[i],
        invariant
            step > 0,
            len == buf@.len(),
            len == old(buf)@.len(),
        ensures
            buf@ =~= stride_zeroed(old(buf)@, step),
        decreases len - j,
    {
        buf[j] = 0;
        assert forall|i: int| j < i < j + step && i < len implies #[trigger] stride_zeroed(
            old(buf)@,
            step,
        )[i] == old(buf)@[i] by {
            assert(i % (step as int) != 0) by (nonlinear_arith)
                requires
                    j % step == 0,
                    j < i < j + step,
                    step > 0,
            ;
        }
        if len - j <= step {
            break;
        }
        assert((j + step) % (step as int) == 0) by (nonlinear_arith)
            requires
                j % step == 0,
                step > 0,
        ;
        j = j + step;
    }
}

/// Sweeping twice leaves the buffer as sweeping once.
pub proof fn law_touch_stride_idempotent(s: Seq<u8>, step: usize)
    requires
        step > 0,
    ensures
        stride_zeroed(stride_zeroed(s, step), step) == stride_zeroed(s, step),
{
    assert(stride_zeroed(stride_zeroed(s, step), step) =~= stride_zeroed(s, step));
}

/// Sweeps `buf` `rounds` times.
pub fn touch_stride_rounds(buf: &mut [u8], step: usize, rounds: u64)
    requires
        step > 0,
    ensures
        rounds > 0 ==> final(buf)@ == stride_zeroed(old(buf)@, step),
        rounds == 0 ==> final(buf)@ == old(buf)@,
{
    let mut i: u64 = 0;
    while i < rounds
        invariant
            step > 0,
            i <= rounds,
            i > 0 ==> buf@ == stride_zeroed(old(buf)@, step),
            i == 0 ==> buf@ == old(buf)@,
        decreases rounds - i,
    {
        touch_stride(buf, step);
        proof {
            law_touch_stride_idempotent(old(buf)@, step);
        }
        i = i + 1;
    }
}

/// Reads the clock, sweeps `buf` `rounds` times, reads the clock again, and
/// returns the elapsed nanoseconds between the two reads: the timeline gains
/// exactly these three steps, in this order, so the timed interval encloses
/// the sweeps.
pub fn measure_stride_writes_on(
    timeline: &mut Timeline,
    buf: &mut [u8],
    step: usize,
    rounds: u64,
) -> (r: Option<u128>)
    requires
        step > 0,
    ensures
        rounds > 0 ==> final(buf)@ == stride_zeroed(old(buf)@, step),
        rounds == 0 ==> final(buf)@ == old(buf)@,
        exists|b: Option<TimeSpec>, a: Option<TimeSpec>|
            #![trigger elapsed_between_spec(b, a)]
            read_outcome(b) && read_outcome(a) && final(timeline).events() == old(
                timeline,
            ).events() + seq![Event::ClockRead(b), Event::Sweep { step, rounds }, Event::ClockRead(a)]
                && r == elapsed_between_spec(b, a),
{
    let before = timeline.read_clock();
    timeline.sweep(buf, step, rounds);
    let after = timeline.read_clock();
    let r = elapsed_nsec_between(before, after);
    assert(final(timeline).events() =~= old(timeline).events() + seq![
        Event::ClockRead(before),
        Event::Sweep { step, rounds },
        Event::ClockRead(after),
    ]);
    r
}

/// Times `rounds` sweeps of `buf` on the monotonic clock and returns the
/// elapsed nanoseconds, as `measure_stride_writes_on` does on a timeline of
/// its own. The sweeps are always made.
pub fn measure_stride_writes(buf: &mut [u8], step: usize, rounds: u64) -> (r: Option<u128>)
    requires
        step > 0,
    ensures
        rounds > 0 ==> final(buf)@ == stride_zeroed(old(buf)@, step),
        rounds == 0 ==> final(buf)@ == old(buf)@,
        exists|b: Option<TimeSpec>, a: Option<TimeSpec>|
            read_outcome(b) && read_outcome(a) && elapsed_between_spec(b, a) == r,
{
    let mut timeline = Timeline::new();
    measure_stride_writes_on(&mut timeline, buf, step, rounds)
}

} // verus!
