use local_comms_service::comms::LocalComms;
use local_comms_service::model::Subsystem;
use local_comms_service::relay::GuardedRelay;
use local_comms_service::schema::MutationRoot;
use local_comms_service::schema::QueryRoot;
use local_comms_service::store::TelemetryStore;
use std::sync::Arc;

fn service() -> (Subsystem, Arc<TelemetryStore>, Arc<GuardedRelay>) {
    let telem = Arc::new(TelemetryStore::new());
    let local = Arc::new(GuardedRelay::new(LocalComms::new(
        "127.0.0.1",
        7000,
        "127.0.0.1",
        7001,
    )));
    (
        Subsystem::new(telem.clone(), local.clone()),
        telem,
        local,
    )
}

#[test]
fn ping_returns_pong() {
    let query = QueryRoot;
    assert_eq!(query.ping(), Ok(String::from("pong")));
}

#[test]
fn ping_is_independent_of_store_and_relay_state() {
    // The probe takes no reference to either component, and still answers
    // after the relay is shut down and the store is full of errors.
    let (subsystem, telem, local) = service();
    local.close();
    telem.log_error(String::from("link down"));
    let query = QueryRoot;
    assert_eq!(query.ping(), Ok(String::from("pong")));
    assert_eq!(query.errors(&subsystem), Ok(vec![String::from("link down")]));
}

#[test]
fn packets_up_query_tracks_external_increments() {
    let (subsystem, telem, _local) = service();
    let query = QueryRoot;
    assert_eq!(query.packets_up(&subsystem), Ok(0));
    telem.count_packet_up();
    telem.count_packet_up();
    telem.count_packet_up();
    assert_eq!(query.packets_up(&subsystem), Ok(3));
}

#[test]
fn every_counter_query_delegates_to_the_store() {
    let (subsystem, telem, _local) = service();
    telem.count_packet_up();
    telem.count_packet_down();
    telem.count_packet_down();
    telem.count_failed_packet_up();
    telem.count_failed_packet_down();
    let query = QueryRoot;
    assert_eq!(query.packets_up(&subsystem), Ok(1));
    assert_eq!(query.packets_down(&subsystem), Ok(2));
    assert_eq!(query.failed_packets_up(&subsystem), Ok(1));
    assert_eq!(query.failed_packets_down(&subsystem), Ok(1));
}

#[test]
fn noop_mutation_reports_liveness() {
    let (subsystem, _telem, local) = service();
    let mutation = MutationRoot;
    assert_eq!(mutation.noop(&subsystem), Ok(true));
    local.close();
    assert_eq!(mutation.noop(&subsystem), Ok(false));
}

#[test]
fn facade_errors_are_a_snapshot_in_order() {
    let (subsystem, telem, _local) = service();
    telem.log_error(String::from("a"));
    telem.log_error(String::from("b"));
    telem.log_error(String::from("c"));
    assert_eq!(
        subsystem.errors(),
        Ok(vec![
            String::from("a"),
            String::from("b"),
            String::from("c"),
        ])
    );
}
