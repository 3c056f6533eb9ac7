//! Hooks for a board-specific transceiver driver. No board is attached in
//! this build, so the driver discards outgoing frames and receives nothing;
//! the surrounding protocol code is what this crate is about.

use vstd::prelude::*;

verus! {

/// Handle on the board's radio transceiver.
pub struct Radio;

impl Radio {
    /// Hand one frame to the transceiver. Without a board it is discarded.
    pub fn send(&self, _buf: &[u8]) {
    }

    /// Read one frame from the transceiver into the buffer, returning the
    /// number of bytes received. Without a board nothing ever arrives.
    pub fn recv<const N: usize>(&self, buf: &mut [u8; N]) -> (n: usize)
        ensures
            n == 0,
            final(buf)@ == old(buf)@,
    {
        0
    }
}

/// One iteration of the bare-metal main loop: poll the transceiver for a
/// frame. Decrypting, verifying and routing what arrives belongs to the
/// receive path, which this layer leaves to the session manager above it.
pub fn process_packet(radio: &Radio) {
    let mut buf = [0u8; 512];
    let _n = radio.recv(&mut buf);
}

} // verus!
