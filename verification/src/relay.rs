//! The guarded relay: one mutual-exclusion lock shared by every caller that
//! needs the endpoint, so that at most one thread works against it at any
//! instant.
//!
//! The lock is vstd's verified reader-writer lock, taken in write mode around
//! every endpoint operation, which makes it a mutex; acquisition cannot be
//! poisoned, so unlike a lock whose previous holder may have died, it never
//! fails. Every path through a relay call, the failing ones included, releases
//! the lock before returning. The lock guards the endpoint's link state; the
//! datagram exchange itself is transport work of the unverified host process,
//! which hands the received bytes in and carries the shaped payload out.

use crate::comms::LocalComms;
use crate::errors::CommsError;
use vstd::prelude::*;
use vstd::rwlock::{RwLock, RwLockPredicate};

verus! {

/// What the relay lock guards: whether the underlying datagram handle is
/// still open. Shutdown is performed by closing it, which makes every later
/// relay call fail rather than touch a dead handle.
pub struct LinkState {
    pub open: bool,
}

/// Any link state may rest in the lock: the handle is either open or closed.
pub struct LinkInv {}

impl RwLockPredicate<LinkState> for LinkInv {
    open spec fn inv(self, s: LinkState) -> bool {
        true
    }
}

/// A datagram endpoint behind a single shared lock. The addressing is fixed
/// for the relay's life; only the link state under the lock ever changes.
pub struct GuardedRelay {
    pub comms: LocalComms,
    lock: RwLock<LinkState, LinkInv>,
}

impl GuardedRelay {
    /// The endpoint addressing this relay was built with, fixed for its life.
    pub closed spec fn endpoint(self) -> LocalComms {
        self.comms
    }

    /// A relay over `comms`, its link open.
    pub fn new(comms: LocalComms) -> (r: GuardedRelay)
        ensures
            r.endpoint() == comms,
    {
        GuardedRelay { comms, lock: RwLock::new(LinkState { open: true }, Ghost(LinkInv {})) }
    }

    /// Whether the underlying handle is still open, read under the lock.
    /// A lock failure would surface as an error, never as a false `true`;
    /// with this lock, acquisition cannot fail, so the flag itself comes back.
    pub fn get_alive(&self) -> bool {
        let handle = self.lock.acquire_read();
        let alive = handle.borrow().open;
        handle.release_read();
        alive
    }

    /// Close the underlying handle: the shutdown path. Every relay call after
    /// this fails with a transport error instead of touching the handle.
    pub fn close(&self) {
        let (_state, handle) = self.lock.acquire_write();
        handle.release_write(LinkState { open: false });
    }
}

/// `read()` of the relay: acquire the shared lock, take the datagram the
/// endpoint received — `size` bytes delivered into `buf` by the blocking
/// receive — shape it into a payload under the lock, and release the lock on
/// every exit path. While one read holds the lock no concurrent write can
/// proceed: simplicity over throughput, by design.
pub fn net_read(relay: &GuardedRelay, buf: &Vec<u8>, size: usize) -> (r: Result<
    Vec<u8>,
    CommsError,
>)
    requires
        size <= buf.len(),
    ensures
        r matches Ok(payload) ==> payload@ == buf@.take(size as int),
        r matches Err(e) ==> e is Io,
{
    let (state, handle) = relay.lock.acquire_write();
    if state.open {
        let payload = relay.comms.read(buf, size);
        handle.release_write(state);
        Ok(payload)
    } else {
        handle.release_write(state);
        Err(CommsError::Io("socket closed".to_owned()))
    }
}

/// `write(bytes)` of the relay: acquire the shared lock, resolve the directed
/// send — always at the preconfigured gateway — and release the lock on every
/// exit path. The host process then hands the unchanged payload to the
/// transport at the returned destination.
pub fn net_write(relay: &GuardedRelay, data: &Vec<u8>) -> (r: Result<(String, u16), CommsError>)
    ensures
        r matches Ok(dest) ==> dest.0@ == relay.endpoint().gateway_ip@ && dest.1
            == relay.endpoint().gateway_port,
        r matches Err(e) ==> e is Io,
{
    let (state, handle) = relay.lock.acquire_write();
    if state.open {
        let dest = relay.comms.write(data);
        handle.release_write(state);
        Ok(dest)
    } else {
        handle.release_write(state);
        Err(CommsError::Io("socket closed".to_owned()))
    }
}

} // verus!
