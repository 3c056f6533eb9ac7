//! Abstraction over radio transceivers. A node is generic over any
//! implementer; the core treats each `send` as one discrete, unacknowledged
//! radio transmission and implies no framing, retry or flow control.

use vstd::prelude::*;

verus! {

/// Capability a transport must provide: raw send and receive.
pub trait Radio {
    /// Send raw bytes over the air.
    fn send(&mut self, buf: &[u8]);

    /// Receive bytes into the buffer, returning the number of bytes received,
    /// never more than the buffer holds.
    fn recv<const N: usize>(&mut self, buf: &mut [u8; N]) -> (n: usize)
        ensures
            n <= N,
    ;
}

/// Transport that sends into the void and never receives anything; used where
/// no transceiver is attached.
pub struct DummyRadio;

impl Radio for DummyRadio {
    fn send(&mut self, _buf: &[u8]) {
    }

    fn recv<const N: usize>(&mut self, _buf: &mut [u8; N]) -> (n: usize)
        ensures
            n == 0,
            final(_buf)@ == old(_buf)@,
    {
        0
    }
}

} // verus!
