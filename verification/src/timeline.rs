//! The steps of an experiment that the outside world sees, in the order they
//! happen: clock reads, rounds of busy work, sweeps over a buffer, and waits
//! for child processes. A `Timeline` records each step as it is taken; only
//! its methods take these steps, so a contract over the record says which
//! steps a function took and in which order.

use vstd::prelude::*;
use crate::cache::{stride_zeroed, touch_stride_rounds};
use crate::timing::{TimeSpec, clock_reading, load, read_outcome};

verus! {

/// One step of an experiment.
pub enum Event {
    /// A read of the monotonic clock, with what it gave.
    ClockRead(Option<TimeSpec>),
    /// A round of `nloop` empty iterations.
    Work(u64),
    /// `rounds` sweeps over a buffer, one write every `step` bytes.
    Sweep { step: usize, rounds: u64 },
    /// A wait for a child process, and whether it succeeded.
    Wait(bool),
}

/// The steps taken so far, in order.
pub struct Timeline {
    events: Ghost<Seq<Event>>,
}

impl Timeline {
    /// The steps taken so far, in order.
    pub closed spec fn events(&self) -> Seq<Event> {
        self.events@
    }

    /// A timeline on which no step has been taken.
    pub fn new() -> (t: Timeline)
        ensures
            t.events() == Seq::<Event>::empty(),
    {
        Timeline { events: Ghost(Seq::empty()) }
    }

    /// Reads the monotonic clock.
    pub fn read_clock(&mut self) -> (r: Option<TimeSpec>)
        ensures
            read_outcome(r),
            final(self).events() == old(self).events().push(Event::ClockRead(r)),
    {
        let r = get_cpu_time();
        self.events = Ghost(self.events@.push(Event::ClockRead(r)));
        r
    }

    /// Runs `nloop` empty iterations.
    pub fn work(&mut self, nloop: u64)
        ensures
            final(self).events() == old(self).events().push(Event::Work(nloop)),
    {
        load(nloop);
        self.events = Ghost(self.events@.push(Event::Work(nloop)));
    }

    /// Sweeps `buf` `rounds` times, writing a zero every `step` bytes.
    pub fn sweep(&mut self, buf: &mut [u8], step: usize, rounds: u64)
        requires
            step > 0,
        ensures
            rounds > 0 ==> final(buf)@ == stride_zeroed(old(buf)@, step),
            rounds == 0 ==> final(buf)@ == old(buf)@,
            final(self).events() == old(self).events().push(Event::Sweep { step, rounds }),
    {
        touch_stride_rounds(buf, step, rounds);
        self.events = Ghost(self.events@.push(Event::Sweep { step, rounds }));
    }

    /// Waits for any child process.
    pub fn wait_child(&mut self) -> (a: WaitAttempt)
        ensures
            final(self).events() == old(self).events().push(Event::Wait(a.succeeded())),
    {
        let a = wait_for_child();
        self.events = Ghost(self.events@.push(Event::Wait(a.succeeded())));
        a
    }
}

/// Reads `CLOCK_MONOTONIC` through `nix::time::clock_gettime`, converting the
/// sample field by field; an error of the call gives `None`. The sample depends
/// on the moment of the call. What is stated is what every successful read
/// holds: a nanosecond part in `0..NANOS_PER_SEC`, as POSIX `clock_gettime`
/// (to which the nix documentation refers) gives it, and non-negative seconds,
/// as Linux's clock_gettime(2) gives it for this clock, which counts from boot.
#[verifier::external_body]
fn get_cpu_time() -> (r: Option<TimeSpec>)
    ensures
        r matches Some(t) ==> clock_reading(t),
{
    match nix::time::clock_gettime(nix::time::ClockId::CLOCK_MONOTONIC) {
        Ok(t) => Some(TimeSpec { tv_sec: t.tv_sec(), tv_nsec: t.tv_nsec() }),
        Err(_) => None,
    }
}

/// One wait for a child process. Its field is private and it cannot be copied
/// or cloned: only `wait_for_child`, which only `Timeline::wait_child` calls,
/// builds one, and each call builds one, so every such record stands for a
/// wait of its own, and every wait is on the timeline.
#[derive(Debug)]
pub struct WaitAttempt {
    ok: bool,
}

impl WaitAttempt {
    /// Whether the wait succeeded.
    pub closed spec fn succeeded(&self) -> bool {
        self.ok
    }

    /// Whether the wait succeeded.
    pub fn is_success(&self) -> (r: bool)
        ensures
            r == self.succeeded(),
    {
        self.ok
    }
}

/// Waits for any child process through `nix::sys::wait::wait` and records
/// whether the call succeeded; that depends on the system, so nothing is stated
/// of it.
#[verifier::external_body]
fn wait_for_child() -> (r: WaitAttempt) {
    WaitAttempt { ok: nix::sys::wait::wait().is_ok() }
}

} // verus!
