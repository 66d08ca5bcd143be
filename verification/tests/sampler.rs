use resource_monitor::float_bits::{F32Bits, F64Bits};
use resource_monitor::sampler::{
    is_refresh_due, start_system_monitoring, Sampler, SamplerAction, SamplerEvent, SamplerPhase,
    UnexpectedEvent, REFRESH_INTERVAL_NANOS, TICK_MILLIS, WARM_UP_DELAY_MILLIS,
};
use resource_monitor::snapshot::{ProcessSample, RawSample, SystemInfo};
use resource_monitor::shared_store::{get_system_info, SharedStore};
use resource_monitor::store::MonitorError;

const MILLI: u128 = 1_000_000;

fn sample(memory_total: u64, process: Option<ProcessSample>) -> RawSample {
    RawSample {
        cpu_usage: F32Bits::from_bits(10.0f32.to_bits()),
        memory_used: memory_total / 2,
        memory_total,
        memory_ratio: F64Bits::from_bits(50.0f64.to_bits()),
        process,
    }
}

/// Brings a fresh sampler, started at `origin`, to the phase in which it
/// waits for readings.
fn sampler_awaiting_readings(origin: u128) -> Sampler {
    let (mut sampler, _) = start_system_monitoring(origin);
    sampler.step(SamplerEvent::WarmedUp).unwrap();
    let action = sampler.step(SamplerEvent::Woke { now: origin + REFRESH_INTERVAL_NANOS });
    assert_eq!(action, Ok(SamplerAction::Sample));
    sampler
}

#[test]
fn cadence_constants() {
    assert_eq!(WARM_UP_DELAY_MILLIS, 200);
    assert_eq!(TICK_MILLIS, 200);
    assert_eq!(REFRESH_INTERVAL_NANOS, 2_000_000_000);
}

#[test]
fn monitoring_starts_with_the_warm_up() {
    let (sampler, action) = start_system_monitoring(42);
    assert_eq!(action, SamplerAction::WarmUp);
    assert_eq!(sampler.phase(), SamplerPhase::WarmingUp);
    assert_eq!(sampler.last_update(), 42);
}

#[test]
fn warm_up_is_followed_by_a_short_sleep() {
    let (mut sampler, _) = start_system_monitoring(0);
    assert_eq!(sampler.step(SamplerEvent::WarmedUp), Ok(SamplerAction::Sleep { millis: 200 }));
    assert_eq!(sampler.phase(), SamplerPhase::Sleeping);
    assert_eq!(sampler.last_update(), 0);
}

#[test]
fn refresh_is_due_exactly_at_two_seconds() {
    assert!(!is_refresh_due(0, 0));
    assert!(!is_refresh_due(0, 1_999_999_999));
    assert!(is_refresh_due(0, 2_000_000_000));
    assert!(is_refresh_due(0, 2_000_000_001));
    assert!(!is_refresh_due(5_000_000_000, 6_999_999_999));
    assert!(is_refresh_due(5_000_000_000, 7_000_000_000));
    assert!(is_refresh_due(0, u128::MAX));
}

#[test]
fn refresh_is_not_due_when_the_clock_went_back() {
    assert!(!is_refresh_due(3_000_000_000, 0));
    assert!(!is_refresh_due(u128::MAX, 0));
    assert!(!is_refresh_due(u128::MAX, u128::MAX));
}

#[test]
fn sampler_sleeps_on_until_the_interval_has_passed() {
    let (mut sampler, _) = start_system_monitoring(0);
    sampler.step(SamplerEvent::WarmedUp).unwrap();
    for tick in 1..10u128 {
        let action = sampler.step(SamplerEvent::Woke { now: tick * 200 * MILLI });
        assert_eq!(action, Ok(SamplerAction::Sleep { millis: 200 }));
        assert_eq!(sampler.phase(), SamplerPhase::Sleeping);
        assert_eq!(sampler.last_update(), 0);
    }
    let action = sampler.step(SamplerEvent::Woke { now: 10 * 200 * MILLI });
    assert_eq!(action, Ok(SamplerAction::Sample));
    assert_eq!(sampler.phase(), SamplerPhase::Sampling);
}

#[test]
fn readings_are_turned_into_the_snapshot_to_publish() {
    let mut sampler = sampler_awaiting_readings(0);
    let raw = sample(8_000, Some(ProcessSample { cpu_usage: F32Bits::from_bits(7), memory: 99 }));
    let action = sampler.step(SamplerEvent::Sampled { sample: raw });
    assert_eq!(action, Ok(SamplerAction::Publish { snapshot: SystemInfo::from_sample(&raw) }));
    assert_eq!(sampler.phase(), SamplerPhase::Publishing);
}

#[test]
fn interval_restarts_after_the_publish() {
    let mut sampler = sampler_awaiting_readings(0);
    sampler.step(SamplerEvent::Sampled { sample: sample(1, None) }).unwrap();
    let after_publish: u128 = 2_003 * MILLI;
    let action = sampler.step(SamplerEvent::Published { now: after_publish });
    assert_eq!(action, Ok(SamplerAction::Sleep { millis: 200 }));
    assert_eq!(sampler.phase(), SamplerPhase::Sleeping);
    assert_eq!(sampler.last_update(), after_publish);
    let early = sampler.step(SamplerEvent::Woke { now: after_publish + 1_999_999_999 });
    assert_eq!(early, Ok(SamplerAction::Sleep { millis: 200 }));
    let due = sampler.step(SamplerEvent::Woke { now: after_publish + 2_000_000_000 });
    assert_eq!(due, Ok(SamplerAction::Sample));
}

#[test]
fn failed_process_lookup_does_not_stop_the_loop() {
    let mut sampler = sampler_awaiting_readings(0);
    let action = sampler.step(SamplerEvent::Sampled { sample: sample(4_096, None) });
    let snapshot = match action {
        Ok(SamplerAction::Publish { snapshot }) => snapshot,
        other => panic!("expected a snapshot to publish, got {:?}", other),
    };
    assert_eq!(snapshot.process_cpu_usage().bits, 0);
    assert_eq!(snapshot.process_memory_usage(), 0);
    assert_eq!(snapshot.memory_total(), 4_096);
    let next = sampler.step(SamplerEvent::Published { now: 2_100 * MILLI });
    assert_eq!(next, Ok(SamplerAction::Sleep { millis: 200 }));
    let later = sampler.step(SamplerEvent::Woke { now: 4_100 * MILLI });
    assert_eq!(later, Ok(SamplerAction::Sample));
}

#[test]
fn unexpected_events_are_refused_and_change_nothing() {
    let (mut sampler, _) = start_system_monitoring(5);
    let before = sampler;
    assert_eq!(
        sampler.step(SamplerEvent::Woke { now: 9_000_000_000 }),
        Err(UnexpectedEvent { phase: SamplerPhase::WarmingUp })
    );
    assert_eq!(
        sampler.step(SamplerEvent::Sampled { sample: sample(1, None) }),
        Err(UnexpectedEvent { phase: SamplerPhase::WarmingUp })
    );
    assert_eq!(
        sampler.step(SamplerEvent::Published { now: 1 }),
        Err(UnexpectedEvent { phase: SamplerPhase::WarmingUp })
    );
    assert_eq!(sampler, before);

    sampler.step(SamplerEvent::WarmedUp).unwrap();
    let sleeping = sampler;
    assert_eq!(
        sampler.step(SamplerEvent::WarmedUp),
        Err(UnexpectedEvent { phase: SamplerPhase::Sleeping })
    );
    assert_eq!(
        sampler.step(SamplerEvent::Published { now: 1 }),
        Err(UnexpectedEvent { phase: SamplerPhase::Sleeping })
    );
    assert_eq!(sampler, sleeping);

    let mut sampling = sampler_awaiting_readings(0);
    assert_eq!(
        sampling.step(SamplerEvent::Woke { now: 1 }),
        Err(UnexpectedEvent { phase: SamplerPhase::Sampling })
    );
    sampling.step(SamplerEvent::Sampled { sample: sample(1, None) }).unwrap();
    assert_eq!(
        sampling.step(SamplerEvent::Sampled { sample: sample(1, None) }),
        Err(UnexpectedEvent { phase: SamplerPhase::Publishing })
    );
    assert_eq!(sampling.phase(), SamplerPhase::Publishing);
}

/// Runs the loop against a simulated clock until `deadline`, publishing to
/// `store`, and returns how many snapshots were published.
fn run_until(store: &SharedStore, deadline: u128, memory_total: u64) -> u32 {
    let mut clock: u128 = 0;
    let mut published: u32 = 0;
    let (mut sampler, mut action) = start_system_monitoring(clock);
    while clock <= deadline {
        let event = match action {
            SamplerAction::WarmUp => {
                clock += 3 * MILLI;
                SamplerEvent::WarmedUp
            },
            SamplerAction::Sleep { millis } => {
                clock += millis as u128 * MILLI;
                if clock > deadline {
                    break;
                }
                SamplerEvent::Woke { now: clock }
            },
            SamplerAction::Sample => {
                clock += 5 * MILLI;
                SamplerEvent::Sampled { sample: sample(memory_total, None) }
            },
            SamplerAction::Publish { snapshot } => {
                assert!(store.publish(snapshot));
                published += 1;
                SamplerEvent::Published { now: clock }
            },
        };
        action = sampler.step(event).unwrap();
    }
    published
}

#[test]
fn snapshot_is_available_after_warm_up_and_one_interval() {
    let store = SharedStore::new();
    let published = run_until(&store, 2_300 * MILLI, 16_000_000_000);
    assert_eq!(published, 1);
    let info = get_system_info(&store).unwrap();
    assert!(info.memory_total() > 0);
    assert_eq!(info.memory_total(), 16_000_000_000);
}

#[test]
fn accessor_at_time_zero_is_not_initialized() {
    let store = SharedStore::new();
    assert_eq!(get_system_info(&store), Err(MonitorError::NotInitialized));
    let published = run_until(&store, 0, 16_000_000_000);
    assert_eq!(published, 0);
    assert_eq!(get_system_info(&store), Err(MonitorError::NotInitialized));
}

#[test]
fn nothing_is_published_before_the_first_interval_ends() {
    let store = SharedStore::new();
    let published = run_until(&store, 1_900 * MILLI, 1);
    assert_eq!(published, 0);
    assert_eq!(get_system_info(&store), Err(MonitorError::NotInitialized));
}

#[test]
fn snapshots_follow_every_two_seconds() {
    let store = SharedStore::new();
    let published = run_until(&store, 10_000 * MILLI, 1);
    assert_eq!(published, 4);
}
