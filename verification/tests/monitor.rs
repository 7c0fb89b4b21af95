use polkadot::pvf_worker::cpu_monitor::{
    clock_reading, elapsed_between, monitor_after_wait, monitor_check, monitor_sample, CpuClock, MonitorStep,
    MonitorWake, StopSignal, MONITOR_INTERVAL_MILLIS,
};
use polkadot::pvf_worker::duration::CpuDuration;

#[test]
fn monitor_fires_when_the_budget_is_reached() {
    let budget = CpuDuration::from_millis(200);
    let wait = MonitorStep::Wait(CpuDuration::from_millis(100));
    assert_eq!(MONITOR_INTERVAL_MILLIS, 100);
    assert_eq!(monitor_check(CpuDuration::zero(), budget), wait);
    assert_eq!(monitor_check(CpuDuration::new(0, 199_999_999).unwrap(), budget), wait);
    assert_eq!(
        monitor_check(CpuDuration::from_millis(200), budget),
        MonitorStep::TimedOut(CpuDuration::from_millis(200))
    );
    assert_eq!(
        monitor_check(CpuDuration::from_secs(9), budget),
        MonitorStep::TimedOut(CpuDuration::from_secs(9))
    );
}

#[test]
fn empty_budget_fires_at_once() {
    assert_eq!(
        monitor_check(CpuDuration::zero(), CpuDuration::zero()),
        MonitorStep::TimedOut(CpuDuration::zero())
    );
}

#[test]
fn monitor_verdict_does_not_flip_back() {
    let budget = CpuDuration::from_millis(250);
    let mut fired = false;
    for millis in (0..600u64).step_by(50) {
        let step = monitor_check(CpuDuration::from_millis(millis), budget);
        let fires = matches!(step, MonitorStep::TimedOut(_));
        assert!(!fired || fires);
        fired = fires;
        assert_eq!(fires, millis >= 250);
    }
}

#[test]
fn monitor_stops_when_told_or_abandoned() {
    assert_eq!(monitor_after_wait(StopSignal::Pending), MonitorWake::SampleAgain);
    assert_eq!(monitor_after_wait(StopSignal::Stop), MonitorWake::Cancelled);
    assert_eq!(monitor_after_wait(StopSignal::Lost), MonitorWake::Cancelled);
}

#[test]
fn elapsed_is_the_difference_of_two_readings() {
    let start = CpuDuration::new(10, 900_000_000).unwrap();
    let now = CpuDuration::new(11, 100_000_000).unwrap();
    assert_eq!(elapsed_between(&start, &now), CpuDuration::from_millis(200));
    assert_eq!(elapsed_between(&now, &start), CpuDuration::zero());
    assert_eq!(elapsed_between(&start, &start), CpuDuration::zero());
}

#[test]
fn elapsed_does_not_shrink_with_later_readings() {
    let start = CpuDuration::from_millis(40);
    let mut last = CpuDuration::zero();
    for millis in [0u64, 39, 40, 41, 100, 100, 5_000] {
        let elapsed = elapsed_between(&start, &CpuDuration::from_millis(millis));
        assert!(elapsed.at_least(&last));
        last = elapsed;
    }
}

#[test]
fn clock_reads_the_process_cpu_time() {
    let clock = CpuClock::start().expect("the process CPU clock is readable");
    let mut spin: u64 = 0;
    for i in 0..3_000_000u64 {
        spin = spin.wrapping_mul(31).wrapping_add(i);
    }
    assert_ne!(spin, 1);
    let first = clock.elapsed().expect("the process CPU clock is readable");
    let second = clock.elapsed().expect("the process CPU clock is readable");
    assert!(second.at_least(&first));
    assert!(first.as_secs() < 60);
    let later = CpuClock::start().unwrap();
    assert!(later.started_at().at_least(&clock.started_at()));
    assert_ne!(later.started_at(), CpuDuration::zero());
}

#[test]
fn clock_at_a_reading() {
    let clock = CpuClock::at(CpuDuration::from_secs(3));
    assert_eq!(clock.started_at(), CpuDuration::from_secs(3));
}

#[test]
fn sample_decides_on_the_clock() {
    let clock = CpuClock::at(CpuDuration::zero());
    // Measured from the start of the process, an empty budget is used up.
    assert!(matches!(
        monitor_sample(&clock, CpuDuration::zero()),
        Some(MonitorStep::TimedOut(_))
    ));
    let fresh = CpuClock::start().unwrap();
    assert_eq!(
        monitor_sample(&fresh, CpuDuration::from_secs(3_600)),
        Some(MonitorStep::Wait(CpuDuration::from_millis(100)))
    );
}

#[test]
fn clock_answers_become_spans() {
    assert_eq!(clock_reading(None), None);
    assert_eq!(clock_reading(Some((3, 250_000_000))), CpuDuration::new(3, 250_000_000));
    assert_eq!(clock_reading(Some((0, 0))), Some(CpuDuration::zero()));
    assert_eq!(clock_reading(Some((u64::MAX, 999_999_999))).unwrap().as_secs(), u64::MAX);
    assert_eq!(clock_reading(Some((1, 1_000_000_000))), None);
}
