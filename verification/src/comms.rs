//! Model of the datagram endpoint: fixed local and gateway addressing, a
//! bounded receive buffer, and the payload shaping the endpoint performs.
//!
//! The endpoint owns one bound datagram handle for its whole life, and its
//! addressing never changes after construction. The handle itself, and the
//! blocking receive and directed send against it, are transport work that the
//! unverified host process drives; what stands here is everything the endpoint
//! decides about the bytes: how a received datagram becomes a payload, and
//! where a payload is directed.

use vstd::prelude::*;

verus! {

/// Largest payload a single receive can deliver; a longer datagram is
/// truncated to this many bytes, an accepted limitation rather than an error.
pub const BUFFER_SIZE: usize = 4096;

/// One datagram endpoint: the address it is bound to and the fixed gateway
/// every send is directed at.
pub struct LocalComms {
    pub listening_ip: String,
    pub listening_port: u16,
    pub gateway_ip: String,
    pub gateway_port: u16,
}

impl LocalComms {
    /// An endpoint bound to `listening_ip:listening_port` that will direct
    /// every send at `gateway_ip:gateway_port`. The caller that owns the
    /// transport binds the datagram handle; a failure to bind is fatal at
    /// startup and no endpoint value exists for it.
    pub fn new(
        listening_ip: &str,
        listening_port: u16,
        gateway_ip: &str,
        gateway_port: u16,
    ) -> (c: LocalComms)
        ensures
            c.listening_ip@ == listening_ip@,
            c.listening_port == listening_port,
            c.gateway_ip@ == gateway_ip@,
            c.gateway_port == gateway_port,
    {
        LocalComms {
            listening_ip: listening_ip.to_owned(),
            listening_port,
            gateway_ip: gateway_ip.to_owned(),
            gateway_port,
        }
    }

    /// The payload of a datagram of `size` bytes received into `buf`: exactly
    /// the first `size` bytes, nothing reordered, nothing invented.
    pub fn read(&self, buf: &Vec<u8>, size: usize) -> (payload: Vec<u8>)
        requires
            size <= buf.len(),
        ensures
            payload@ == buf@.take(size as int),
    {
        let mut payload: Vec<u8> = Vec::new();
        let mut i: usize = 0;
        while i < size
            invariant
                i <= size,
                size <= buf.len(),
                payload@ == buf@.take(i as int),
            decreases size - i,
        {
            payload.push(buf[i]);
            proof {
                assert(buf@.take(i as int + 1) =~= buf@.take(i as int).push(buf@[i as int]));
            }
            i = i + 1;
        }
        payload
    }

    /// Where a payload goes: the directed send always addresses the fixed
    /// gateway this endpoint was constructed with, whatever the payload is.
    pub fn write(&self, _data: &Vec<u8>) -> (dest: (String, u16))
        ensures
            dest.0@ == self.gateway_ip@,
            dest.1 == self.gateway_port,
    {
        (self.gateway_ip.clone(), self.gateway_port)
    }
}

} // verus!
