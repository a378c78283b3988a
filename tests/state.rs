use hw_monitor::{
    get_cpu_usage, get_cpu_usage_history, get_gpu_usage, get_gpu_usage_history, get_memory_usage,
    get_memory_usage_history, sampler_step, AppState, Metric, Readings, SamplerAction,
    SamplerEvent, SensorError, HISTORY_CAPACITY, SYSTEM_INFO_INIT_INTERVAL,
};

fn readings(per_core: Vec<u32>, used: u64, total: u64) -> Readings {
    Readings {
        per_core,
        used_memory: used,
        total_memory: total,
        gpu: Ok(vec![Some(20)]),
    }
}

#[test]
fn state_starts_empty() {
    let s = AppState::new();
    assert_eq!(get_cpu_usage(&s), 0);
    assert_eq!(get_memory_usage(&s), 0);
    assert_eq!(get_gpu_usage(&s), 0);
    assert_eq!(get_cpu_usage_history(&s, 60), Vec::<u32>::new());
    assert_eq!(get_memory_usage_history(&s, 1), Vec::<u32>::new());
    assert_eq!(get_gpu_usage_history(&s, 0), Vec::<u32>::new());
}

#[test]
fn tick_memory_half_used_reads_fifty() {
    let mut s = AppState::new();
    s.tick(&readings(vec![5000], 5_000_000_000, 10_000_000_000));
    assert_eq!(get_memory_usage(&s), 50);
    assert_eq!(get_memory_usage_history(&s, 60), vec![50]);
}

#[test]
fn tick_without_gpu_reads_zero_and_updates_cpu_memory() {
    let mut s = AppState::new();
    let r = Readings {
        per_core: vec![5000, 3000],
        used_memory: 1,
        total_memory: 4,
        gpu: Ok(vec![]),
    };
    s.tick(&r);
    assert_eq!(get_gpu_usage(&s), 0);
    assert_eq!(get_gpu_usage_history(&s, 60), vec![0]);
    assert_eq!(get_cpu_usage(&s), 40);
    assert_eq!(get_memory_usage(&s), 25);
}

#[test]
fn tick_gpu_query_failure_skips_only_gpu() {
    let mut s = AppState::new();
    s.tick(&readings(vec![1000], 1, 10));
    let r = Readings {
        per_core: vec![2000],
        used_memory: 2,
        total_memory: 10,
        gpu: Err(SensorError::SensorReadFailure),
    };
    s.tick(&r);
    assert_eq!(get_gpu_usage(&s), 20);
    assert_eq!(get_gpu_usage_history(&s, 60), vec![20]);
    assert_eq!(get_cpu_usage_history(&s, 60), vec![20, 10]);
    assert_eq!(get_memory_usage_history(&s, 60), vec![20, 10]);
}

#[test]
fn record_tick_applies_each_metric_on_its_own() {
    let mut s = AppState::with_capacity(3);
    s.record_tick(Ok(10), Err(SensorError::SensorReadFailure), Err(SensorError::SensorUnavailable));
    assert_eq!(s.current(Metric::Cpu), 10);
    assert_eq!(s.current(Metric::Memory), 0);
    assert_eq!(s.history(Metric::Memory, 5), Vec::<u32>::new());
    assert_eq!(s.current(Metric::Gpu), 0);
    assert_eq!(s.history(Metric::Gpu, 5), vec![0]);
}

#[test]
fn history_is_capped_and_newest_first() {
    let mut s = AppState::new();
    for i in 0u32..(HISTORY_CAPACITY as u32 + 10) {
        s.record_tick(Ok(i % 101), Ok(0), Ok(0));
    }
    let h = get_cpu_usage_history(&s, 1000);
    assert_eq!(h.len(), HISTORY_CAPACITY);
    assert_eq!(h[0], 69);
    assert_eq!(h[59], 10);
    assert_eq!(get_cpu_usage_history(&s, 2), vec![69, 68]);
}

#[test]
fn state_capacity_three_scenario() {
    let mut s = AppState::with_capacity(3);
    for v in [10u32, 20, 30, 40] {
        s.record_tick(Ok(v), Ok(v), Ok(v));
    }
    assert_eq!(s.history(Metric::Cpu, 2), vec![40, 30]);
    assert_eq!(s.history(Metric::Memory, 10), vec![40, 30, 20]);
}

#[test]
fn repeated_reads_agree() {
    let mut s = AppState::new();
    s.tick(&readings(vec![4200, 5800], 3, 4));
    let c1 = get_cpu_usage(&s);
    let h1 = get_cpu_usage_history(&s, 60);
    let c2 = get_cpu_usage(&s);
    let h2 = get_cpu_usage_history(&s, 60);
    assert_eq!(c1, c2);
    assert_eq!(h1, h2);
    assert_eq!(c1, 50);
}

#[test]
fn sampler_step_decisions() {
    let mut s = AppState::new();
    let a = sampler_step(&mut s, SamplerEvent::SnapshotLockFailed);
    assert_eq!(a, SamplerAction::SleepThenSample(SYSTEM_INFO_INIT_INTERVAL));
    assert_eq!(get_cpu_usage_history(&s, 60), Vec::<u32>::new());
    let a = sampler_step(&mut s, SamplerEvent::Sampled(readings(vec![7000], 1, 2)));
    assert_eq!(a, SamplerAction::SleepThenSample(1));
    assert_eq!(get_cpu_usage(&s), 70);
    assert_eq!(get_memory_usage(&s), 50);
    assert_eq!(get_gpu_usage(&s), 20);
    let a = sampler_step(&mut s, SamplerEvent::StopRequested);
    assert_eq!(a, SamplerAction::Stop);
    assert_eq!(get_cpu_usage_history(&s, 60), vec![70]);
}
