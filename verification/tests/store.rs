use resource_monitor::float_bits::{F32Bits, F64Bits};
use resource_monitor::snapshot::{ProcessSample, RawSample, SystemInfo};
use resource_monitor::shared_store::{get_system_info, publish_under, read_outcome, SharedStore};
use resource_monitor::store::{MonitorError, SnapshotStore};

/// A snapshot all of whose fields carry `tag`.
fn tagged(tag: u32) -> SystemInfo {
    SystemInfo::from_sample(&RawSample {
        cpu_usage: F32Bits::from_bits(tag),
        memory_used: tag as u64,
        memory_total: tag as u64,
        memory_ratio: F64Bits::from_bits(tag as u64),
        process: Some(ProcessSample { cpu_usage: F32Bits::from_bits(tag), memory: tag as u64 }),
    })
}

fn assert_whole(info: &SystemInfo, tag: u32) {
    assert_eq!(info.cpu_usage().bits, tag);
    assert_eq!(info.memory_usage().bits, tag as u64);
    assert_eq!(info.memory_used(), tag as u64);
    assert_eq!(info.memory_total(), tag as u64);
    assert_eq!(info.process_cpu_usage().bits, tag);
    assert_eq!(info.process_memory_usage(), tag as u64);
}

#[test]
fn read_before_publish_is_not_initialized() {
    let store = SnapshotStore::new();
    assert_eq!(store.read(), Err(MonitorError::NotInitialized));
}

#[test]
fn read_after_publish_returns_the_snapshot() {
    let mut store = SnapshotStore::new();
    store.publish(tagged(7));
    assert_eq!(store.read(), Ok(tagged(7)));
    assert_eq!(store.read(), Ok(tagged(7)));
}

#[test]
fn publish_overwrites() {
    let mut store = SnapshotStore::new();
    store.publish(tagged(1));
    store.publish(tagged(2));
    assert_eq!(store.read(), Ok(tagged(2)));
}

#[test]
fn reads_never_mix_tags() {
    let mut store = SnapshotStore::new();
    for tag in 1..=200u32 {
        store.publish(tagged(tag));
        let info = store.read().unwrap();
        assert_whole(&info, tag);
    }
}

#[test]
fn shared_store_starts_uninitialized() {
    let store = SharedStore::new();
    assert_eq!(get_system_info(&store), Err(MonitorError::NotInitialized));
}

#[test]
fn shared_store_returns_what_was_published() {
    let store = SharedStore::new();
    assert!(store.publish(tagged(3)));
    assert_eq!(get_system_info(&store), Ok(tagged(3)));
    assert!(store.publish(tagged(4)));
    assert_eq!(get_system_info(&store), Ok(tagged(4)));
}

#[test]
fn clones_share_one_store() {
    let writer = SharedStore::new();
    let reader = writer.clone();
    assert_eq!(get_system_info(&reader), Err(MonitorError::NotInitialized));
    assert!(writer.publish(tagged(11)));
    assert_eq!(get_system_info(&reader), Ok(tagged(11)));
    let late_reader = reader.clone();
    assert_eq!(get_system_info(&late_reader), Ok(tagged(11)));
}

#[test]
fn shared_reads_never_mix_tags() {
    let writer = SharedStore::new();
    let reader = writer.clone();
    for tag in 1..=200u32 {
        assert!(writer.publish(tagged(tag)));
        let info = get_system_info(&reader).unwrap();
        assert_whole(&info, tag);
    }
}

#[test]
fn concurrent_readers_never_see_a_torn_snapshot() {
    let runtime = tokio::runtime::Builder::new_multi_thread()
        .worker_threads(5)
        .build()
        .unwrap();
    let store = SharedStore::new();
    let rounds: u32 = 2_000;
    let mut readers = Vec::new();
    for _ in 0..4 {
        let reader = store.clone();
        readers.push(runtime.spawn(async move {
            let mut reads: u32 = 0;
            let mut latest: u32 = 0;
            while latest < rounds && reads < 1_000_000 {
                reads += 1;
                match get_system_info(&reader) {
                    Ok(info) => {
                        let tag = info.cpu_usage().bits;
                        assert_whole(&info, tag);
                        assert!(tag >= latest);
                        latest = tag;
                    },
                    Err(error) => {
                        assert_eq!(error, MonitorError::NotInitialized);
                        assert_eq!(latest, 0);
                    },
                }
            }
            latest
        }));
    }
    let writer = store.clone();
    let publisher = runtime.spawn(async move {
        for tag in 1..=rounds {
            assert!(writer.publish(tagged(tag)));
        }
    });
    runtime.block_on(publisher).unwrap();
    for reader in readers {
        assert!(runtime.block_on(reader).unwrap() <= rounds);
    }
    assert_eq!(get_system_info(&store), Ok(tagged(rounds)));
}

#[test]
fn publish_under_a_guard_replaces_the_cell() {
    let cell = std::sync::Mutex::new(SnapshotStore::new());
    {
        let mut locked = cell.lock().map_err(|poisoned| poisoned.to_string());
        assert!(publish_under(&mut locked, tagged(5)));
        assert!(locked.is_ok());
    }
    assert_eq!(cell.lock().unwrap().read(), Ok(tagged(5)));
    {
        let mut locked = cell.lock().map_err(|poisoned| poisoned.to_string());
        assert!(publish_under(&mut locked, tagged(6)));
    }
    assert_eq!(cell.lock().unwrap().read(), Ok(tagged(6)));
}

#[test]
fn publish_under_a_failed_lock_stores_nothing() {
    let detail = String::from("poisoned lock: another task failed inside");
    let mut locked: Result<std::sync::MutexGuard<'_, SnapshotStore>, String> = Err(detail.clone());
    assert!(!publish_under(&mut locked, tagged(5)));
    assert_eq!(locked.err(), Some(detail));
}

#[test]
fn read_outcome_of_an_empty_cell() {
    assert_eq!(read_outcome(Ok(SnapshotStore::new())), Err(MonitorError::NotInitialized));
}

#[test]
fn read_outcome_of_a_filled_cell() {
    let mut cell = SnapshotStore::new();
    cell.publish(tagged(9));
    assert_eq!(read_outcome(Ok(cell)), Ok(tagged(9)));
}

#[test]
fn read_outcome_of_a_failed_lock() {
    let detail = String::from("poisoned lock: another task failed inside");
    assert_eq!(
        read_outcome(Err(detail.clone())),
        Err(MonitorError::LockUnavailable { detail })
    );
}

#[test]
fn not_initialized_message() {
    assert_eq!(
        MonitorError::NotInitialized.message(),
        "システム情報がまだ初期化されていません"
    );
}

#[test]
fn lock_unavailable_message() {
    let error = MonitorError::LockUnavailable {
        detail: String::from("poisoned lock: another task failed inside"),
    };
    assert_eq!(
        error.message(),
        "システム情報の取得に失敗しました: poisoned lock: another task failed inside"
    );
}

#[test]
fn lock_unavailable_message_with_empty_detail() {
    let error = MonitorError::LockUnavailable { detail: String::new() };
    assert_eq!(error.message(), "システム情報の取得に失敗しました: ");
}
