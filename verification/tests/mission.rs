use local_comms_service::mission::orchestration_exit_code;
use local_comms_service::mission::ping_outcome;
use local_comms_service::mission::PingOutcome;

#[test]
fn pong_classifies_as_okay() {
    let response: Result<String, String> = Ok(String::from("pong"));
    let outcome = ping_outcome(&response);
    assert_eq!(outcome, PingOutcome::Okay);
    assert_eq!(outcome.label(), String::from("Okay"));
}

#[test]
fn any_other_value_classifies_as_unexpected() {
    let response: Result<String, String> = Ok(String::from("ping"));
    let outcome = ping_outcome(&response);
    assert_eq!(outcome, PingOutcome::Unexpected);
    assert_eq!(outcome.label(), String::from("Unexpected"));
}

#[test]
fn transport_failure_classifies_as_error() {
    let response: Result<String, String> = Err(String::from("timed out after 10s"));
    let outcome = ping_outcome(&response);
    assert_eq!(outcome, PingOutcome::Error);
    assert_eq!(outcome.label(), String::from("Error"));
}

#[test]
fn mutation_success_decides_the_exit_status() {
    assert_eq!(orchestration_exit_code(true), 0);
    assert_eq!(orchestration_exit_code(false), 1);
}
