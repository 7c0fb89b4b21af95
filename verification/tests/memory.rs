use polkadot::pvf_worker::cpu_monitor::StopSignal;
use polkadot::pvf_worker::memory_stats::{
    extract_max_rss_stat, get_memory_tracker_loop_stats, memory_tracker_step, MemorySampler,
    MemoryStats, MemoryTrackerSummary, SamplerExit, SamplerStep, SAMPLER_INTERVAL_MILLIS,
};

#[test]
fn sampler_without_readings_has_no_summary() {
    let sampler = MemorySampler::new();
    assert_eq!(sampler.samples(), 0);
    assert_eq!(sampler.lowest(), None);
    assert_eq!(sampler.summary(), None);
}

#[test]
fn sampler_summarises_peak_mean_and_count() {
    let mut sampler = MemorySampler::new();
    for reading in [300u64, 100, 500, 101] {
        sampler.record(reading);
    }
    assert_eq!(sampler.samples(), 4);
    assert_eq!(sampler.lowest(), Some(100));
    assert_eq!(
        sampler.summary(),
        Some(MemoryTrackerSummary { peak: 500, avg: 250, samples: 4 })
    );
}

#[test]
fn sampler_mean_does_not_overflow() {
    let mut sampler = MemorySampler::new();
    sampler.record(u64::MAX);
    sampler.record(u64::MAX);
    sampler.record(u64::MAX - 3);
    assert_eq!(
        sampler.summary(),
        Some(MemoryTrackerSummary { peak: u64::MAX, avg: u64::MAX - 1, samples: 3 })
    );
}

#[test]
fn mean_lies_between_lowest_and_peak() {
    let mut sampler = MemorySampler::new();
    for reading in [7u64, 7, 8, 1_000_000, 3] {
        sampler.record(reading);
        let summary = sampler.summary().unwrap();
        assert!(sampler.lowest().unwrap() <= summary.avg);
        assert!(summary.avg <= summary.peak);
    }
}

#[test]
fn observe_skips_absent_readings() {
    let mut sampler = MemorySampler::new();
    sampler.observe(None);
    assert_eq!(sampler.samples(), 0);
    sampler.observe(Some(5));
    sampler.observe(None);
    assert_eq!(sampler.summary(), Some(MemoryTrackerSummary { peak: 5, avg: 5, samples: 1 }));
}

#[test]
fn tracker_step_follows_the_signal() {
    assert_eq!(SAMPLER_INTERVAL_MILLIS, 100);
    let mut sampler = MemorySampler::new();
    sampler.observe(Some(10));
    assert_eq!(
        memory_tracker_step(&mut sampler, StopSignal::Pending, Some(30)),
        SamplerStep::Continue
    );
    assert_eq!(sampler.samples(), 2);
    assert_eq!(
        memory_tracker_step(&mut sampler, StopSignal::Lost, Some(1_000)),
        SamplerStep::Lost
    );
    assert_eq!(sampler.samples(), 2);
    assert_eq!(
        memory_tracker_step(&mut sampler, StopSignal::Stop, Some(20)),
        SamplerStep::Finished(Some(MemoryTrackerSummary { peak: 30, avg: 20, samples: 3 }))
    );
}

#[test]
fn tracker_without_platform_support_finishes_empty() {
    let mut sampler = MemorySampler::new();
    assert_eq!(memory_tracker_step(&mut sampler, StopSignal::Pending, None), SamplerStep::Continue);
    assert_eq!(
        memory_tracker_step(&mut sampler, StopSignal::Stop, None),
        SamplerStep::Finished(None)
    );
}

#[test]
fn lost_measurements_are_absent_not_errors() {
    let summary = MemoryTrackerSummary { peak: 3, avg: 2, samples: 2 };
    assert_eq!(
        get_memory_tracker_loop_stats(true, SamplerExit::Summary(Some(summary))),
        Some(summary)
    );
    assert_eq!(get_memory_tracker_loop_stats(true, SamplerExit::Summary(None)), None);
    assert_eq!(get_memory_tracker_loop_stats(false, SamplerExit::Summary(Some(summary))), None);
    assert_eq!(get_memory_tracker_loop_stats(true, SamplerExit::Failed), None);
    assert_eq!(extract_max_rss_stat(None), None);
    assert_eq!(extract_max_rss_stat(Some(Ok(2048))), Some(2048));
    assert_eq!(extract_max_rss_stat(Some(Err("EINVAL".to_string()))), None);
    assert_eq!(
        MemoryStats::assemble(Some(summary), Some(7)),
        MemoryStats { memory_tracker_stats: Some(summary), max_rss: Some(7) }
    );
}
