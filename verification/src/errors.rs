//! Error taxonomy of the relay core.
//!
//! A failure to synchronize is kept distinct from a failure of the transport:
//! callers must be able to tell "our own locking is broken" from "the link is
//! broken".

use vstd::prelude::*;

verus! {

/// What a relay call can fail with.
///
/// `Io` is a transport-level failure after the socket was successfully bound,
/// carrying the transport's own description. `Lock` means the shared lock
/// could not be acquired; no I/O was attempted.
#[derive(Debug)]
pub enum CommsError {
    Io(String),
    Lock,
}

impl CommsError {
    /// The human-readable description of this error.
    pub fn message(&self) -> (r: String)
        ensures
            self matches CommsError::Io(m) ==> r@ == m@,
            self is Lock ==> r@ == "Failed to lock socket"@,
    {
        match self {
            CommsError::Io(m) => m.clone(),
            CommsError::Lock => "Failed to lock socket".to_owned(),
        }
    }
}

} // verus!
