use linux_practice::sched::{
    count_failures, first_failure, kill_children, loops_per_msec, loops_per_msec_from,
    loops_per_resolution, parse_sched_config, progress_row, reap_children, record_samples,
    EstimateError, ProgressRow, SchedArgError, SchedConfig, NLOOP_FOR_ESTIMATION,
};
use linux_practice::timing::TimeSpec;

fn ts(tv_sec: i64, tv_nsec: i64) -> TimeSpec {
    TimeSpec { tv_sec, tv_nsec }
}

#[test]
fn config_accepts_multiple() {
    assert_eq!(
        parse_sched_config(&vec![4, 100, 10]),
        Ok(SchedConfig { nproc: 4, total: 100, resol: 10, nrecord: 10 })
    );
    // extra numbers are ignored
    assert_eq!(
        parse_sched_config(&vec![1, 6, 3, 99]),
        Ok(SchedConfig { nproc: 1, total: 6, resol: 3, nrecord: 2 })
    );
}

#[test]
fn config_errors() {
    assert_eq!(parse_sched_config(&vec![]), Err(SchedArgError::Usage));
    assert_eq!(parse_sched_config(&vec![1, 2]), Err(SchedArgError::Usage));
    assert_eq!(parse_sched_config(&vec![0, 100, 10]), Err(SchedArgError::NprocTooSmall(0)));
    assert_eq!(parse_sched_config(&vec![1, 0, 1]), Err(SchedArgError::TotalTooSmall(0)));
    assert_eq!(parse_sched_config(&vec![1, 10, 0]), Err(SchedArgError::ResolTooSmall(0)));
    assert_eq!(
        parse_sched_config(&vec![1, 10, 3]),
        Err(SchedArgError::NotMultiple { total: 10, resol: 3 })
    );
    // the checks come in order: the worker count first
    assert_eq!(parse_sched_config(&vec![0, 0, 0]), Err(SchedArgError::NprocTooSmall(0)));
}

#[test]
fn estimate_from_samples() {
    assert_eq!(loops_per_msec_from(&ts(0, 0), &ts(0, 2_000_000)), Ok(25_000_000));
    assert_eq!(loops_per_msec_from(&ts(10, 0), &ts(11, 0)), Ok(50_000));
    // less than a millisecond: there is no divisor
    assert_eq!(
        loops_per_msec_from(&ts(0, 0), &ts(0, 500_000)),
        Err(EstimateError::UnderOneMillisecond)
    );
    assert_eq!(
        loops_per_msec_from(&ts(i64::MIN, 0), &ts(i64::MAX, 0)),
        Err(EstimateError::Undefined)
    );
}

#[test]
fn estimate_on_the_clock() {
    match loops_per_msec() {
        Ok(v) => assert!(v <= NLOOP_FOR_ESTIMATION),
        Err(e) => assert_ne!(e, EstimateError::Undefined),
    }
}

#[test]
fn workload_per_resolution() {
    assert_eq!(loops_per_resolution(25_000, 10), Some(250_000));
    assert_eq!(loops_per_resolution(u64::MAX, 2), None);
    assert_eq!(loops_per_resolution(u64::MAX, 1), Some(u64::MAX));
}

#[test]
fn records_samples_after_earlier_ones() {
    let mut buf = vec![ts(7, 7)];
    assert!(record_samples(3, 10, &mut buf));
    assert_eq!(buf.len(), 4);
    assert_eq!(buf[0], ts(7, 7));
    for t in buf[1..].iter() {
        assert!(0 <= t.tv_nsec && t.tv_nsec < 1_000_000_000);
    }
    assert!(record_samples(0, 10, &mut buf));
    assert_eq!(buf.len(), 4);
}

#[test]
fn progress_rows() {
    let start = ts(0, 0);
    assert_eq!(
        progress_row(2, &start, &ts(0, 250_000_000), 1, 4),
        Some(ProgressRow { id: 2, elapsed_ms: 250, percent: 50 })
    );
    assert_eq!(
        progress_row(0, &start, &ts(1, 0), 3, 4),
        Some(ProgressRow { id: 0, elapsed_ms: 1000, percent: 100 })
    );
    assert_eq!(progress_row(0, &start, &ts(0, 0), 0, 3).unwrap().percent, 33);
    // the percentage would overflow u32
    assert_eq!(progress_row(0, &start, &ts(0, 0), 42_949_672, 50_000_000), None);
    assert!(progress_row(0, &start, &ts(0, 0), 42_949_671, 50_000_000).is_some());
}

#[test]
fn kill_stops_at_missing_process() {
    assert!(kill_children(&vec![]).is_empty());
    // no process has this id: the first attempt fails and no other is made
    let attempts = kill_children(&vec![i32::MAX, i32::MAX - 1]);
    assert_eq!(attempts.len(), 1);
    assert_eq!(attempts[0].pid(), i32::MAX);
    assert!(!attempts[0].is_success());
    assert_eq!(first_failure(&attempts), Some(0));
}

#[test]
fn reap_without_children_fails() {
    assert!(reap_children(0).is_empty());
    assert_eq!(count_failures(&reap_children(0)), 0);
    let attempts = reap_children(2);
    assert_eq!(attempts.len(), 2);
    assert!(attempts.iter().all(|a| !a.is_success()));
    assert_eq!(count_failures(&attempts), 2);
}

#[test]
fn first_failure_of_no_attempts() {
    assert_eq!(first_failure(&Vec::new()), None);
}
