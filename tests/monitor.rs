use energymon::{
    discovery_outcome, exclusive_outcome, finish_outcome, init_outcome, interval_outcome,
    label_of, precision_outcome, read_outcome, source_label, DummyMonitor, Lifecycle,
    MonitorError, OnceSlot, Phase, SourceReply, SOURCE_BUFFER_LEN, UNKNOWN_SOURCE,
};

#[test]
fn test_interface() {
    let em: DummyMonitor = DummyMonitor::new().unwrap();
    println!("Source: {}", em.source());
    println!("Interval: {}", em.interval_us());
    println!("Precision: {}", em.precision_uj());
    println!("Exclusive: {}", em.is_exclusive());
    let val = em.read_uj().unwrap();
    println!("Reading: {}", val);
}

#[test]
fn test_singleton() {
    let mut slot: OnceSlot<u64> = OnceSlot::new();
    let mut runs = 0u32;
    for _ in 0..2 {
        assert!(slot.obtain(|| {
            runs += 1;
            Some(7u64)
        }));
        let val = *slot.get().unwrap();
        println!("Read {} from {} singleton with refresh interval {}", val, "slot", 0);
    }
    assert_eq!(runs, 1);
}

#[test]
fn dummy_monitor_defaults() {
    let mut em = DummyMonitor::default();
    assert_eq!(em.read_uj(), Ok(0));
    assert_eq!(em.interval_us(), 0);
    assert_eq!(em.precision_uj(), 0);
    assert_eq!(em.source(), "UNKNOWN");
    assert!(!em.is_exclusive());
    assert_eq!(em.finish(), 0);
    assert_eq!(em.finish(), 0);
}

#[test]
fn discovery_status_decides_acquisition() {
    assert_eq!(discovery_outcome(0), Ok(()));
    assert_eq!(discovery_outcome(-1), Err(MonitorError::AcquisitionFailed));
    assert_eq!(discovery_outcome(5), Err(MonitorError::AcquisitionFailed));
}

#[test]
fn init_reply_decides_initialization() {
    assert_eq!(init_outcome(None), Ok(()));
    assert_eq!(init_outcome(Some(0)), Ok(()));
    assert_eq!(init_outcome(Some(-22)), Err(MonitorError::InitializationFailed));
}

#[test]
fn read_without_entry_point_is_unsupported() {
    assert_eq!(read_outcome(None), Err(MonitorError::UnsupportedOperation));
    assert_eq!(read_outcome(Some(123_456)), Ok(123_456));
    assert_eq!(read_outcome(Some(u64::MAX)), Ok(u64::MAX));
}

#[test]
fn metadata_queries_fall_back_to_defaults() {
    assert_eq!(interval_outcome(None), 0);
    assert_eq!(interval_outcome(Some(1000)), 1000);
    assert_eq!(precision_outcome(None), 0);
    assert_eq!(precision_outcome(Some(62)), 62);
    assert!(!exclusive_outcome(None));
    assert!(!exclusive_outcome(Some(0)));
    assert!(exclusive_outcome(Some(1)));
    assert!(exclusive_outcome(Some(-3)));
    assert_eq!(finish_outcome(None), 0);
    assert_eq!(finish_outcome(Some(4)), 4);
}

#[test]
fn null_source_is_unknown_whatever_the_buffer() {
    assert_eq!(UNKNOWN_SOURCE, "UNKNOWN");
    let text = vec![b'x'; SOURCE_BUFFER_LEN];
    let zeros = vec![0u8; SOURCE_BUFFER_LEN];
    let bad = vec![0xFFu8; SOURCE_BUFFER_LEN];
    for buf in [&text, &zeros, &bad] {
        assert_eq!(source_label(SourceReply::Null, buf), "UNKNOWN");
        assert_eq!(source_label(SourceReply::Absent, buf), "UNKNOWN");
    }
    assert_eq!(source_label(SourceReply::Null, &[]), "UNKNOWN");
    assert_eq!(source_label(SourceReply::Filled, &[]), "");
    assert_eq!(source_label(SourceReply::Filled, &zeros), "");
}

#[test]
fn source_stops_at_the_first_nul() {
    let mut buf = vec![0u8; SOURCE_BUFFER_LEN];
    buf[..4].copy_from_slice(b"RAPL");
    buf[5] = b'z';
    assert_eq!(source_label(SourceReply::Filled, &buf), "RAPL");
    assert_eq!(label_of(&buf), b"RAPL".to_vec());
}

#[test]
fn source_without_nul_takes_the_whole_buffer() {
    let buf = vec![b'a'; SOURCE_BUFFER_LEN];
    let label = source_label(SourceReply::Filled, &buf);
    assert_eq!(label.len(), SOURCE_BUFFER_LEN);
    assert!(label.chars().all(|c| c == 'a'));
    assert_eq!(label_of(&buf), buf);
}

#[test]
fn malformed_source_bytes_are_replaced() {
    let buf = [b'O', b'K', 0xFF, b'!', 0, b'?'];
    assert_eq!(source_label(SourceReply::Filled, &buf), "OK\u{FFFD}!");
}

#[test]
fn lifecycle_construction_outcomes() {
    assert_eq!(Lifecycle::construct(0, None).unwrap().phase(), Phase::Active);
    assert_eq!(Lifecycle::construct(0, Some(0)).unwrap().phase(), Phase::Active);
    assert_eq!(
        Lifecycle::construct(0, Some(1)).unwrap_err(),
        MonitorError::InitializationFailed
    );
    assert_eq!(
        Lifecycle::construct(2, None).unwrap_err(),
        MonitorError::AcquisitionFailed
    );
    assert_eq!(
        Lifecycle::construct(2, Some(1)).unwrap_err(),
        MonitorError::AcquisitionFailed
    );
}

#[test]
fn finalize_runs_once_after_use() {
    let mut life = Lifecycle::construct(0, Some(0)).unwrap();
    assert!(life.is_active());
    assert!(life.release());
    assert_eq!(life.phase(), Phase::Finalized);
    assert!(!life.is_active());
    assert!(!life.release());
    assert!(!life.release());
}

#[test]
fn unconstructed_handle_is_never_finalized() {
    let mut life = Lifecycle::new();
    assert_eq!(life.phase(), Phase::Unconstructed);
    assert!(!life.release());
    assert_eq!(life.phase(), Phase::Unconstructed);
}

#[test]
fn failed_construction_is_never_retried() {
    let mut slot: OnceSlot<u64> = OnceSlot::new();
    let mut runs = 0u32;
    for _ in 0..5 {
        let available = slot.obtain(|| {
            runs += 1;
            None
        });
        assert!(!available);
        assert!(slot.get().is_none());
        assert!(slot.has_failed());
    }
    assert_eq!(runs, 1);
}

#[test]
fn later_constructions_are_ignored() {
    let mut slot: OnceSlot<u64> = OnceSlot::new();
    assert!(slot.get().is_none());
    assert!(!slot.has_failed());
    assert!(slot.obtain(|| Some(1)));
    assert!(slot.obtain(|| Some(2)));
    assert!(slot.obtain(|| None));
    assert_eq!(slot.get(), Some(&1));
}

#[test]
fn error_messages() {
    assert_eq!(MonitorError::AcquisitionFailed.message(), "Failed to create energymon");
    assert_eq!(
        MonitorError::InitializationFailed.message(),
        "Failed to initialize energymon"
    );
    assert_eq!(
        MonitorError::UnsupportedOperation.message(),
        "No read function for energymon"
    );
    assert_eq!(
        MonitorError::InstanceUnavailable.message(),
        "No energymon instance available"
    );
}
