use local_comms_service::telemetry::CommsTelemetry;

#[test]
fn telemetry_starts_at_zero() {
    let t = CommsTelemetry::new();
    assert_eq!(t.packets_up, 0);
    assert_eq!(t.packets_down, 0);
    assert_eq!(t.failed_packets_up, 0);
    assert_eq!(t.failed_packets_down, 0);
    assert!(t.errors.is_empty());
}

#[test]
fn counters_advance_one_at_a_time() {
    let mut t = CommsTelemetry::new();
    t.count_packet_up();
    t.count_packet_up();
    t.count_packet_down();
    t.count_failed_packet_up();
    t.count_failed_packet_down();
    t.count_failed_packet_down();
    assert_eq!(t.packets_up, 2);
    assert_eq!(t.packets_down, 1);
    assert_eq!(t.failed_packets_up, 1);
    assert_eq!(t.failed_packets_down, 2);
    assert!(t.errors.is_empty());
}

#[test]
fn errors_log_preserves_insertion_order() {
    let mut t = CommsTelemetry::new();
    t.log_error(String::from("a"));
    t.log_error(String::from("b"));
    t.log_error(String::from("c"));
    let snapshot = t.errors_snapshot();
    assert_eq!(
        snapshot,
        vec![String::from("a"), String::from("b"), String::from("c")]
    );
    assert_eq!(t.packets_up, 0);
}

#[test]
fn snapshot_is_a_copy_not_a_live_view() {
    let mut t = CommsTelemetry::new();
    t.log_error(String::from("first"));
    let snapshot = t.errors_snapshot();
    t.log_error(String::from("second"));
    assert_eq!(snapshot, vec![String::from("first")]);
    assert_eq!(
        t.errors_snapshot(),
        vec![String::from("first"), String::from("second")]
    );
}
