//! The scheduler experiment: its command line, the workload estimate, the
//! samples each worker records, the progress report, and the clean-up of
//! worker processes.

use vstd::prelude::*;
use crate::children::{KillAttempt, interrupt_process};
use crate::timeline::{Event, Timeline, WaitAttempt};
use crate::timing::{
    TimeSpec, clock_reading, duration_defined, read_outcome, total_nsec,
    wrapped_elapsed_msec, diff_is_defined, diff_msec, law_elapsed_is_true_interval,
    law_elapsed_when_nanos_borrow,
};

verus! {

/// Empty iterations run to estimate how many fit in one millisecond.
pub const NLOOP_FOR_ESTIMATION: u64 = 50_000_000;

/// What the command line asks for: `nproc` workers running for `total`
/// milliseconds, each recording a sample every `resol` milliseconds, hence
/// `nrecord` samples each.
#[derive(Clone, Copy, Debug, PartialEq, Eq)]
pub struct SchedConfig {
    pub nproc: u32,
    pub total: u32,
    pub resol: u32,
    pub nrecord: u32,
}

/// Why a command line is refused.
#[derive(Clone, Copy, Debug, PartialEq, Eq)]
pub enum SchedArgError {
    /// Fewer than three numbers were given.
    Usage,
    /// The number of workers is below one.
    NprocTooSmall(u32),
    /// The total time is below one.
    TotalTooSmall(u32),
    /// The resolution is below one.
    ResolTooSmall(u32),
    /// The total time is not a multiple of the resolution.
    NotMultiple { total: u32, resol: u32 },
}

/// The outcome of reading the first three numbers of the command line as
/// worker count, total time and resolution, checked in that order.
pub open spec fn sched_config_spec(args: Seq<u32>) -> Result<SchedConfig, SchedArgError> {
    if args.len() < 3 {
        Err(SchedArgError::Usage)
    } else if args[0] < 1 {
        Err(SchedArgError::NprocTooSmall(args[0]))
    } else if args[1] < 1 {
        Err(SchedArgError::TotalTooSmall(args[1]))
    } else if args[2] < 1 {
        Err(SchedArgError::ResolTooSmall(args[2]))
    } else if args[1] % args[2] != 0 {
        Err(SchedArgError::NotMultiple { total: args[1], resol: args[2] })
    } else {
        Ok(SchedConfig { nproc: args[0], total: args[1], resol: args[2], nrecord: args[1] / args[2] })
    }
}

/// Checks the numbers of the command line and derives the sample count.
pub fn parse_sched_config(args: &Vec<u32>) -> (r: Result<SchedConfig, SchedArgError>)
    ensures
        r == sched_config_spec(args@),
        r matches Ok(c) ==> c.nproc >= 1 && c.resol >= 1 && c.nrecord >= 1 && c.nrecord
            * c.resol == c.total,
{
    if args.len() < 3 {
        return Err(SchedArgError::Usage);
    }
    let nproc = args[0];
    let total = args[1];
    let resol = args[2];
    if nproc < 1 {
        return Err(SchedArgError::NprocTooSmall(nproc));
    }
    if total < 1 {
        return Err(SchedArgError::TotalTooSmall(total));
    }
    if resol < 1 {
        return Err(SchedArgError::ResolTooSmall(resol));
    }
    if total % resol != 0 {
        return Err(SchedArgError::NotMultiple { total, resol });
    }
    let nrecord = total / resol;
    proof {
        let t = total as int;
        let q = resol as int;
        assert(t / q * q == t && t / q >= 1) by (nonlinear_arith)
            requires
                t >= 1,
                q >= 1,
                t % q == 0,
        ;
    }
    Ok(SchedConfig { nproc, total, resol, nrecord })
}

/// Why no estimate of iterations per millisecond could be made.
#[derive(Clone, Copy, Debug, PartialEq, Eq)]
pub enum EstimateError {
    /// A read of the monotonic clock failed.
    ClockFailed,
    /// The two samples give no defined difference.
    Undefined,
    /// The millisecond count, taken modulo 2^64, is zero: the estimation run
    /// took less than one whole millisecond, and the division has no divisor.
    UnderOneMillisecond,
}

/// The estimate of empty iterations per millisecond from the two samples that
/// enclose the estimation run.
pub open spec fn estimate_from_spec(before: TimeSpec, after: TimeSpec) -> Result<
    u64,
    EstimateError,
> {
    if !duration_defined(before, after) {
        Err(EstimateError::Undefined)
    } else if (wrapped_elapsed_msec(before, after) as u64) == 0 {
        Err(EstimateError::UnderOneMillisecond)
    } else {
        Ok((NLOOP_FOR_ESTIMATION / (wrapped_elapsed_msec(before, after) as u64)) as u64)
    }
}

/// Iterations per millisecond, given the samples taken before and after
/// `NLOOP_FOR_ESTIMATION` empty iterations.
pub fn loops_per_msec_from(before: &TimeSpec, after: &TimeSpec) -> (r: Result<u64, EstimateError>)
    ensures
        r == estimate_from_spec(*before, *after),
{
    if !diff_is_defined(before, after) {
        return Err(EstimateError::Undefined);
    }
    let ms = diff_msec(before, after) as u64;
    if ms == 0 {
        return Err(EstimateError::UnderOneMillisecond);
    }
    Ok(NLOOP_FOR_ESTIMATION / ms)
}

/// The outcome of an estimation run from its two clock reads: a failed read,
/// or the estimate from the two readings.
pub open spec fn estimate_outcome(before: Option<TimeSpec>, after: Option<TimeSpec>) -> Result<
    u64,
    EstimateError,
> {
    match (before, after) {
        (Some(b), Some(a)) => estimate_from_spec(b, a),
        _ => Err(EstimateError::ClockFailed),
    }
}

/// Reads the clock, runs `NLOOP_FOR_ESTIMATION` empty iterations, reads the
/// clock again, and estimates the iterations per millisecond from those two
/// reads: the timeline gains exactly these three steps, in this order, and the
/// result is decided by the read before the workload and the read after it.
pub fn estimate_loops_per_msec(timeline: &mut Timeline) -> (r: Result<u64, EstimateError>)
    ensures
        exists|b: Option<TimeSpec>, a: Option<TimeSpec>|
            #![trigger estimate_outcome(b, a)]
            read_outcome(b) && read_outcome(a) && final(timeline).events() == old(
                timeline,
            ).events() + seq![
                Event::ClockRead(b),
                Event::Work(NLOOP_FOR_ESTIMATION),
                Event::ClockRead(a),
            ] && r == estimate_outcome(b, a),
{
    let before = timeline.read_clock();
    timeline.work(NLOOP_FOR_ESTIMATION);
    let after = timeline.read_clock();
    let r = match (before, after) {
        (Some(b), Some(a)) => loops_per_msec_from(&b, &a),
        _ => Err(EstimateError::ClockFailed),
    };
    assert(final(timeline).events() =~= old(timeline).events() + seq![
        Event::ClockRead(before),
        Event::Work(NLOOP_FOR_ESTIMATION),
        Event::ClockRead(after),
    ]);
    assert(r == estimate_outcome(before, after));
    r
}

/// Times `NLOOP_FOR_ESTIMATION` empty iterations on the monotonic clock and
/// returns the iterations per millisecond, as `estimate_loops_per_msec` does on
/// a timeline of its own. Whatever the clock gave, the outcome is either a
/// failed clock read or the estimate for some pair of clock readings.
pub fn loops_per_msec() -> (r: Result<u64, EstimateError>)
    ensures
        r != Err::<u64, EstimateError>(EstimateError::ClockFailed) ==> exists|
            b: TimeSpec,
            a: TimeSpec,
        | clock_reading(b) && clock_reading(a) && estimate_from_spec(b, a) == r,
{
    let mut timeline = Timeline::new();
    let r = estimate_loops_per_msec(&mut timeline);
    proof {
        let (b, a) = choose|b: Option<TimeSpec>, a: Option<TimeSpec>|
            #![trigger estimate_outcome(b, a)]
            read_outcome(b) && read_outcome(a) && timeline.events() == Seq::<Event>::empty() + seq![
                Event::ClockRead(b),
                Event::Work(NLOOP_FOR_ESTIMATION),
                Event::ClockRead(a),
            ] && r == estimate_outcome(b, a);
        if r != Err::<u64, EstimateError>(EstimateError::ClockFailed) {
            assert(b is Some && a is Some);
            assert(estimate_from_spec(b->0, a->0) == r);
        }
    }
    r
}

/// The work of one resolution step: the iterations per millisecond times the
/// resolution, or `None` where that overflows `u64`.
pub fn loops_per_resolution(loops_per_ms: u64, resol: u32) -> (r: Option<u64>)
    ensures
        r == (if loops_per_ms * resol <= u64::MAX {
            Some((loops_per_ms * resol) as u64)
        } else {
            None::<u64>
        }),
{
    loops_per_ms.checked_mul(resol as u64)
}

/// The steps of recording `samples`: for each, in order, a round of `nloop`
/// empty iterations and then the clock read that gave the sample.
pub open spec fn recording_events(samples: Seq<TimeSpec>, nloop: u64) -> Seq<Event>
    decreases samples.len(),
{
    if samples.len() == 0 {
        Seq::empty()
    } else {
        recording_events(samples.drop_last(), nloop) + seq![
            Event::Work(nloop),
            Event::ClockRead(Some(samples.last())),
        ]
    }
}

/// Runs `nrecord` rounds of `nloop` empty iterations, appending a clock sample
/// to `buf` after each. Earlier contents of `buf` stay in front and every
/// added sample is a clock reading; on a failed clock read it stops early and
/// returns `false`. The timeline gains, for each added sample, the round of
/// work and then the clock read that gave that sample; a failed read comes
/// after a last round of work.
pub fn record_samples_on(
    timeline: &mut Timeline,
    nrecord: u32,
    nloop: u64,
    buf: &mut Vec<TimeSpec>,
) -> (ok: bool)
    ensures
        old(buf)@.len() <= final(buf)@.len() <= old(buf)@.len() + nrecord,
        final(buf)@.subrange(0, old(buf)@.len() as int) == old(buf)@,
        forall|k: int|
            old(buf)@.len() <= k < final(buf)@.len() ==> clock_reading(#[trigger] final(buf)@[k]),
        ok <==> final(buf)@.len() == old(buf)@.len() + nrecord,
        ok ==> final(timeline).events() == old(timeline).events() + recording_events(
            final(buf)@.subrange(old(buf)@.len() as int, final(buf)@.len() as int),
            nloop,
        ),
        !ok ==> final(timeline).events() == old(timeline).events() + recording_events(
            final(buf)@.subrange(old(buf)@.len() as int, final(buf)@.len() as int),
            nloop,
        ) + seq![Event::Work(nloop), Event::ClockRead(None)],
{
    let ghost start = old(buf)@.len() as int;
    let mut i: u32 = 0;
    assert(buf@.subrange(start, buf@.len() as int) =~= Seq::<TimeSpec>::empty());
    assert(timeline.events() =~= old(timeline).events() + recording_events(
        buf@.subrange(start, buf@.len() as int),
        nloop,
    ));
    while i < nrecord
        invariant
            i <= nrecord,
            start == old(buf)@.len(),
            buf@.len() == old(buf)@.len() + i,
            buf@.subrange(0, start) == old(buf)@,
            forall|k: int| start <= k < buf@.len() ==> clock_reading(#[trigger] buf@[k]),
            timeline.events() == old(timeline).events() + recording_events(
                buf@.subrange(start, buf@.len() as int),
                nloop,
            ),
        decreases nrecord - i,
    {
        let ghost before = buf@;
        timeline.work(nloop);
        match timeline.read_clock() {
            Some(ts) => {
                buf.push(ts);
                proof {
                    let added = buf@.subrange(start, buf@.len() as int);
                    assert(added.drop_last() =~= before.subrange(start, before.len() as int));
                    assert(added.last() == ts);
                    assert(buf@.subrange(0, start) =~= before.subrange(0, start));
                    assert(timeline.events() =~= old(timeline).events() + recording_events(
                        added,
                        nloop,
                    ));
                }
            },
            None => {
                assert(timeline.events() =~= old(timeline).events() + recording_events(
                    buf@.subrange(start, buf@.len() as int),
                    nloop,
                ) + seq![Event::Work(nloop), Event::ClockRead(None)]);
                return false;
            },
        }
        i = i + 1;
    }
    true
}

/// The steps of a recording pair up with its samples: step `2k` is the `k`-th
/// round of `nloop` empty iterations and step `2k + 1` the clock read that gave
/// sample `k`, taken after that round. Each sample is thus the reading of its
/// own clock read, and the reads come in the order of the samples.
pub proof fn law_recording_pairs_samples_with_reads(samples: Seq<TimeSpec>, nloop: u64)
    ensures
        recording_events(samples, nloop).len() == 2 * samples.len(),
        forall|k: int|
            0 <= k < samples.len() ==> recording_events(samples, nloop)[2 * k] == Event::Work(nloop)
                && #[trigger] recording_events(samples, nloop)[2 * k + 1] == Event::ClockRead(
                Some(samples[k]),
            ),
    decreases samples.len(),
{
    if samples.len() > 0 {
        let init = samples.drop_last();
        law_recording_pairs_samples_with_reads(init, nloop);
        let e = recording_events(samples, nloop);
        let ei = recording_events(init, nloop);
        assert forall|k: int| 0 <= k < samples.len() implies e[2 * k] == Event::Work(nloop)
            && #[trigger] e[2 * k + 1] == Event::ClockRead(Some(samples[k])) by {
            if k < init.len() {
                assert(e[2 * k] == ei[2 * k]);
                assert(e[2 * k + 1] == ei[2 * k + 1]);
                assert(init[k] == samples[k]);
            }
        }
    }
}

/// Runs `nrecord` rounds of `nloop` empty iterations, appending a clock sample
/// to `buf` after each, as `record_samples_on` does on a timeline of its own.
/// Earlier contents of `buf` stay in front and every added sample is a clock
/// reading; on a failed clock read it stops early and returns `false`.
pub fn record_samples(nrecord: u32, nloop: u64, buf: &mut Vec<TimeSpec>) -> (ok: bool)
    ensures
        old(buf)@.len() <= final(buf)@.len() <= old(buf)@.len() + nrecord,
        final(buf)@.subrange(0, old(buf)@.len() as int) == old(buf)@,
        forall|k: int|
            old(buf)@.len() <= k < final(buf)@.len() ==> clock_reading(#[trigger] final(buf)@[k]),
        ok <==> final(buf)@.len() == old(buf)@.len() + nrecord,
{
    let mut timeline = Timeline::new();
    record_samples_on(&mut timeline, nrecord, nloop, buf)
}

/// One line of a worker's report: its id, the milliseconds since the start,
/// and how much of its samples had been taken, in percent.
#[derive(Clone, Copy, Debug, PartialEq, Eq)]
pub struct ProgressRow {
    pub id: u32,
    pub elapsed_ms: u128,
    pub percent: u32,
}

/// The report line for sample `i` of `nrecord`, or `None` where the time
/// difference is not defined or the percentage overflows `u32`.
pub open spec fn progress_row_spec(
    id: u32,
    start: TimeSpec,
    sample: TimeSpec,
    i: u32,
    nrecord: u32,
) -> Option<ProgressRow> {
    if duration_defined(start, sample) && (i + 1) * 100 <= u32::MAX {
        Some(
            ProgressRow {
                id,
                elapsed_ms: wrapped_elapsed_msec(start, sample) as u128,
                percent: ((i + 1) * 100 / (nrecord as int)) as u32,
            },
        )
    } else {
        None
    }
}

/// Builds the report line of sample `i` (counted from 0) out of `nrecord`.
pub fn progress_row(id: u32, start: &TimeSpec, sample: &TimeSpec, i: u32, nrecord: u32) -> (r:
    Option<ProgressRow>)
    requires
        i < nrecord,
    ensures
        r == progress_row_spec(id, *start, *sample, i, nrecord),
{
    if !diff_is_defined(start, sample) || i >= u32::MAX / 100 {
        return None;
    }
    let elapsed_ms = diff_msec(start, sample);
    let percent = (i + 1) * 100 / nrecord;
    Some(ProgressRow { id, elapsed_ms, percent })
}

/// The report of a worker: one line per recorded sample, in order, up to the
/// first sample whose line cannot be built; the flag tells whether every one
/// of the `nrecord` lines was built.
pub fn progress_rows(id: u32, start: &TimeSpec, samples: &Vec<TimeSpec>, nrecord: u32) -> (r: (
    Vec<ProgressRow>,
    bool,
))
    requires
        nrecord <= samples@.len(),
    ensures
        r.0@.len() <= nrecord,
        r.1 <==> r.0@.len() == nrecord,
        forall|k: int|
            0 <= k < r.0@.len() ==> progress_row_spec(id, *start, samples@[k], k as u32, nrecord)
                == Some(#[trigger] r.0@[k]),
        r.0@.len() < nrecord ==> progress_row_spec(
            id,
            *start,
            samples@[r.0@.len() as int],
            r.0@.len() as u32,
            nrecord,
        ) is None,
{
    let mut rows: Vec<ProgressRow> = Vec::new();
    let mut i: u32 = 0;
    while i < nrecord
        invariant
            i <= nrecord,
            nrecord <= samples@.len(),
            rows@.len() == i,
            forall|k: int|
                0 <= k < rows@.len() ==> progress_row_spec(id, *start, samples@[k], k as u32, nrecord)
                    == Some(#[trigger] rows@[k]),
        decreases nrecord - i,
    {
        match progress_row(id, start, &samples[i as usize], i, nrecord) {
            Some(row) => rows.push(row),
            None => {
                return (rows, false);
            },
        }
        i = i + 1;
    }
    (rows, true)
}

/// The elapsed time of a progress line is measured from `start`: for clock
/// readings with `start` no later than `sample`, it is the interval between
/// them in whole milliseconds, with the 2^32 nanoseconds that the nanosecond
/// difference adds where it goes down.
pub proof fn law_progress_elapsed_from_start(
    id: u32,
    start: TimeSpec,
    sample: TimeSpec,
    i: u32,
    nrecord: u32,
)
    requires
        clock_reading(start),
        clock_reading(sample),
        total_nsec(start) <= total_nsec(sample),
        i < nrecord,
        (i + 1) * 100 <= u32::MAX,
    ensures
        progress_row_spec(id, start, sample, i, nrecord) is Some,
        progress_row_spec(id, start, sample, i, nrecord)->0.elapsed_ms == (total_nsec(sample)
            - total_nsec(start) + (if sample.tv_nsec < start.tv_nsec {
            0x1_0000_0000int
        } else {
            0int
        })) / 1_000_000,
{
    if sample.tv_nsec >= start.tv_nsec {
        assert(start.tv_sec <= sample.tv_sec);
        law_elapsed_is_true_interval(start, sample);
    } else {
        assert(start.tv_sec < sample.tv_sec);
        law_elapsed_when_nanos_borrow(start, sample);
    }
}

/// The sample `t` moved by `d` whole seconds.
pub open spec fn shifted(t: TimeSpec, d: int) -> TimeSpec {
    TimeSpec { tv_sec: (t.tv_sec + d) as i64, tv_nsec: t.tv_nsec }
}

/// Moving the start and the sample by the same number of seconds leaves the
/// progress line unchanged: only the time between them counts.
pub proof fn law_progress_ignores_common_shift(
    id: u32,
    start: TimeSpec,
    sample: TimeSpec,
    i: u32,
    nrecord: u32,
    d: int,
)
    requires
        i64::MIN <= start.tv_sec + d <= i64::MAX,
        i64::MIN <= sample.tv_sec + d <= i64::MAX,
    ensures
        progress_row_spec(id, shifted(start, d), shifted(sample, d), i, nrecord)
            == progress_row_spec(id, start, sample, i, nrecord),
{
    assert(shifted(sample, d).tv_sec - shifted(start, d).tv_sec == sample.tv_sec - start.tv_sec);
}

/// Progress never exceeds 100 percent and the last sample reports exactly 100.
pub proof fn law_progress_reaches_full(
    id: u32,
    start: TimeSpec,
    sample: TimeSpec,
    i: u32,
    nrecord: u32,
)
    requires
        i < nrecord,
        progress_row_spec(id, start, sample, i, nrecord) is Some,
    ensures
        progress_row_spec(id, start, sample, i, nrecord)->0.percent <= 100,
        i + 1 == nrecord ==> progress_row_spec(id, start, sample, i, nrecord)->0.percent == 100,
{
    let a = (i + 1) as int;
    let n = nrecord as int;
    assert(a * 100 / n <= 100) by (nonlinear_arith)
        requires
            1 <= a <= n,
    ;
    assert(a == n ==> a * 100 / n == 100) by (nonlinear_arith)
        requires
            1 <= a,
    ;
}

/// Interrupts the given worker processes one by one, in the order given, and
/// stops after the first attempt that fails. The result holds the attempts in
/// order: the `k`-th was made on `pids[k]`, every attempt but the last
/// succeeded, and fewer attempts than processes were made only where the last
/// one failed.
pub fn kill_children(pids: &Vec<i32>) -> (attempts: Vec<KillAttempt>)
    ensures
        attempts@.len() <= pids@.len(),
        forall|k: int| 0 <= k < attempts@.len() ==> #[trigger] attempts@[k].target() == pids@[k],
        forall|k: int| 0 <= k < attempts@.len() - 1 ==> #[trigger] attempts@[k].succeeded(),
        attempts@.len() < pids@.len() ==> attempts@.len() > 0 && !attempts@.last().succeeded(),
{
    let mut attempts: Vec<KillAttempt> = Vec::new();
    let mut j: usize = 0;
    while j < pids.len()
        invariant
            j <= pids@.len(),
            attempts@.len() == j,
            forall|k: int| 0 <= k < attempts@.len() ==> #[trigger] attempts@[k].target() == pids@[k],
            forall|k: int| 0 <= k < attempts@.len() ==> #[trigger] attempts@[k].succeeded(),
        decreases pids@.len() - j,
    {
        let attempt = interrupt_process(pids[j]);
        let ok = attempt.is_success();
        attempts.push(attempt);
        if !ok {
            return attempts;
        }
        j = j + 1;
    }
    attempts
}

/// The index of the first failed attempt, if any.
pub fn first_failure(attempts: &Vec<KillAttempt>) -> (r: Option<usize>)
    ensures
        r matches Some(j) ==> j < attempts@.len() && !attempts@[j as int].succeeded() && forall|
            k: int,
        | 0 <= k < j ==> #[trigger] attempts@[k].succeeded(),
        r is None ==> forall|k: int| 0 <= k < attempts@.len() ==> #[trigger] attempts@[k].succeeded(),
{
    let mut j: usize = 0;
    while j < attempts.len()
        invariant
            j <= attempts@.len(),
            forall|k: int| 0 <= k < j ==> #[trigger] attempts@[k].succeeded(),
        decreases attempts@.len() - j,
    {
        if !attempts[j].is_success() {
            return Some(j);
        }
        j = j + 1;
    }
    None
}

/// For the attempts that `kill_children` reports on `pids`: with no process
/// given no attempt is made; when no attempt failed, every process was
/// attempted, each in its turn; and a failed attempt is always the last one
/// made.
pub proof fn law_kill_stops_at_first_failure(attempts: Seq<KillAttempt>, pids: Seq<i32>)
    requires
        attempts.len() <= pids.len(),
        forall|k: int| 0 <= k < attempts.len() ==> #[trigger] attempts[k].target() == pids[k],
        forall|k: int| 0 <= k < attempts.len() - 1 ==> #[trigger] attempts[k].succeeded(),
        attempts.len() < pids.len() ==> attempts.len() > 0 && !attempts.last().succeeded(),
    ensures
        pids.len() == 0 ==> attempts.len() == 0,
        (forall|k: int| 0 <= k < attempts.len() ==> #[trigger] attempts[k].succeeded()) ==> (
        attempts.len() == pids.len() && forall|k: int|
            0 <= k < pids.len() ==> #[trigger] attempts[k].target() == pids[k]),
        forall|j: int|
            0 <= j < attempts.len() && !#[trigger] attempts[j].succeeded() ==> j == attempts.len()
                - 1,
{
    if attempts.len() < pids.len() {
        assert(!attempts[attempts.len() - 1].succeeded());
    }
}

/// The steps of waiting for children with these outcomes: one wait each, in order.
pub open spec fn wait_events(attempts: Seq<WaitAttempt>) -> Seq<Event> {
    Seq::new(attempts.len(), |k: int| Event::Wait(attempts[k].succeeded()))
}

/// Waits for `n` children in turn and returns the record of each wait, in
/// order. The timeline gains exactly these `n` waits and no other step: the
/// `k`-th record is the outcome of the `k`-th wait made.
pub fn reap_children_on(timeline: &mut Timeline, n: u32) -> (attempts: Vec<WaitAttempt>)
    ensures
        attempts@.len() == n,
        final(timeline).events() == old(timeline).events() + wait_events(attempts@),
{
    let mut attempts: Vec<WaitAttempt> = Vec::new();
    let mut i: u32 = 0;
    assert(timeline.events() =~= old(timeline).events() + wait_events(attempts@));
    while i < n
        invariant
            i <= n,
            attempts@.len() == i,
            timeline.events() == old(timeline).events() + wait_events(attempts@),
        decreases n - i,
    {
        let attempt = timeline.wait_child();
        attempts.push(attempt);
        assert(timeline.events() =~= old(timeline).events() + wait_events(attempts@));
        i = i + 1;
    }
    attempts
}

/// Every step added while reaping is a wait, there are as many as children
/// asked for, and the outcome of each record is that of its own wait: no wait
/// is made whose outcome is not returned.
pub proof fn law_reap_makes_exactly_the_recorded_waits(attempts: Seq<WaitAttempt>, n: nat)
    requires
        attempts.len() == n,
    ensures
        wait_events(attempts).len() == n,
        forall|k: int|
            0 <= k < n ==> #[trigger] wait_events(attempts)[k] == Event::Wait(
                attempts[k].succeeded(),
            ),
{
}

/// Waits for `n` children in turn and returns the record of each wait, in
/// order, as `reap_children_on` does on a timeline of its own.
pub fn reap_children(n: u32) -> (attempts: Vec<WaitAttempt>)
    ensures
        attempts@.len() == n,
{
    let mut timeline = Timeline::new();
    reap_children_on(&mut timeline, n)
}

/// How many of the waits failed.
pub fn count_failures(attempts: &Vec<WaitAttempt>) -> (r: u32)
    requires
        attempts@.len() <= u32::MAX,
    ensures
        r == attempts@.filter(|a: WaitAttempt| !a.succeeded()).len(),
        r <= attempts@.len(),
{
    let mut r: u32 = 0;
    let mut i: usize = 0;
    while i < attempts.len()
        invariant
            i <= attempts@.len(),
            attempts@.len() <= u32::MAX,
            r == attempts@.take(i as int).filter(|a: WaitAttempt| !a.succeeded()).len(),
        decreases attempts@.len() - i,
    {
        proof {
            reveal(Seq::filter);
            assert(attempts@.take(i as int + 1).drop_last() =~= attempts@.take(i as int));
            attempts@.take(i as int).lemma_filter_len(|a: WaitAttempt| !a.succeeded());
        }
        if !attempts[i].is_success() {
            r = r + 1;
        }
        i = i + 1;
    }
    assert(attempts@.take(i as int) =~= attempts@);
    proof {
        attempts@.lemma_filter_len(|a: WaitAttempt| !a.succeeded());
    }
    r
}

} // verus!
