//! Decision core of the two-service orchestration client.
//!
//! The pattern: query `{ ping }` against one service with a bounded timeout,
//! classify the result shape, carry that classification as a string parameter
//! into a mutation against a second, independent service, and turn the
//! mutation's success field into the process exit status. The queries
//! themselves are transport work of the host process; every branch it takes
//! is decided here.

use vstd::prelude::*;

verus! {

/// The three outcome categories of the liveness query: the expected `"pong"`
/// came back; some other value came back; or the query failed at the
/// transport level.
#[derive(Clone, Copy, Debug, PartialEq, Eq)]
pub enum PingOutcome {
    Okay,
    Unexpected,
    Error,
}

impl PingOutcome {
    /// The string form this outcome is carried in as a mutation parameter.
    pub fn label(&self) -> (r: String)
        ensures
            self is Okay ==> r@ == "Okay"@,
            self is Unexpected ==> r@ == "Unexpected"@,
            self is Error ==> r@ == "Error"@,
    {
        match self {
            PingOutcome::Okay => "Okay".to_owned(),
            PingOutcome::Unexpected => "Unexpected".to_owned(),
            PingOutcome::Error => "Error".to_owned(),
        }
    }
}

/// Classify the first service's ping response: exactly `"pong"` is `Okay`,
/// any other value is `Unexpected`, and a transport-level failure is `Error`.
pub fn ping_outcome(response: &Result<String, String>) -> (o: PingOutcome)
    ensures
        response matches Ok(s) ==> (o is Okay <==> s@ == "pong"@),
        response matches Ok(s) && s@ != "pong"@ ==> o is Unexpected,
        response is Err ==> o is Error,
{
    match response {
        Ok(s) => {
            let pong: String = "pong".to_owned();
            if *s == pong {
                PingOutcome::Okay
            } else {
                PingOutcome::Unexpected
            }
        },
        Err(_) => PingOutcome::Error,
    }
}

/// The orchestration's final decision: a successful mutation response means a
/// clean exit, and a non-success result field is fatal for the whole
/// orchestration — the process reports failure with a non-zero status.
pub fn orchestration_exit_code(mutation_success: bool) -> (code: i32)
    ensures
        mutation_success <==> code == 0,
        !mutation_success ==> code == 1,
{
    if mutation_success {
        0
    } else {
        1
    }
}

} // verus!
