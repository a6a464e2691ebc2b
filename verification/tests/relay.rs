use local_comms_service::comms::LocalComms;
use local_comms_service::errors::CommsError;
use local_comms_service::relay::net_read;
use local_comms_service::relay::net_write;
use local_comms_service::relay::GuardedRelay;

fn relay_on_7000() -> GuardedRelay {
    GuardedRelay::new(LocalComms::new("127.0.0.1", 7000, "127.0.0.1", 7001))
}

#[test]
fn endpoint_keeps_its_addressing() {
    let comms = LocalComms::new("10.0.0.2", 8040, "10.0.0.1", 8041);
    assert_eq!(comms.listening_ip, String::from("10.0.0.2"));
    assert_eq!(comms.listening_port, 8040);
    assert_eq!(comms.gateway_ip, String::from("10.0.0.1"));
    assert_eq!(comms.gateway_port, 8041);
}

#[test]
fn read_returns_exactly_the_received_payload() {
    let relay = relay_on_7000();
    let mut buf = b"hello".to_vec();
    buf.resize(4096, 0);
    let payload = net_read(&relay, &buf, 5).unwrap();
    assert_eq!(payload, b"hello".to_vec());
}

#[test]
fn read_of_an_empty_datagram_is_empty() {
    let relay = relay_on_7000();
    let buf = vec![0u8; 4096];
    let payload = net_read(&relay, &buf, 0).unwrap();
    assert!(payload.is_empty());
}

#[test]
fn write_is_directed_at_the_fixed_gateway() {
    let relay = relay_on_7000();
    let (ip, port) = net_write(&relay, &b"hello".to_vec()).unwrap();
    assert_eq!(ip, String::from("127.0.0.1"));
    assert_eq!(port, 7001);
}

#[test]
fn closed_relay_fails_but_keeps_answering() {
    let relay = relay_on_7000();
    assert!(relay.get_alive());
    relay.close();
    // The failed call releases the lock: every later call still completes.
    let err = net_read(&relay, &vec![0u8; 16], 4).unwrap_err();
    assert!(matches!(err, CommsError::Io(_)));
    let err = net_write(&relay, &b"x".to_vec()).unwrap_err();
    assert!(matches!(err, CommsError::Io(_)));
    assert!(!relay.get_alive());
}

#[test]
fn error_messages_distinguish_lock_from_transport() {
    assert_eq!(
        CommsError::Lock.message(),
        String::from("Failed to lock socket")
    );
    assert_eq!(
        CommsError::Io(String::from("socket closed")).message(),
        String::from("socket closed")
    );
}
