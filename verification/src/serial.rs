//! The serial console driver's protocol: the one fixed diagnostic port must
//! be brought up exactly once before the first write, and every write then
//! transmits its bytes in order.
//!
//! The hardware handshake and the port output themselves happen outside this
//! crate; this type tracks the state the driver depends on — the port base,
//! whether initialization has run, and the bytes handed to the device — so
//! that the init-before-write discipline is checked, not assumed.

use vstd::prelude::*;
use vstd::string::StringSliceAdditionalSpecFns;

verus! {

/// What contracts see of the serial port: its base address, whether the
/// handshake has run, and everything transmitted so far, in order.
#[verifier::ext_equal]
pub struct SerialPortView {
    pub base: u16,
    pub initialized: bool,
    pub transmitted: Seq<u8>,
}

/// The serial console driver's state for the one fixed diagnostic port.
pub struct SerialPort {
    base: u16,
    initialized: bool,
    transmitted: Ghost<Seq<u8>>,
}

impl View for SerialPort {
    type V = SerialPortView;

    closed spec fn view(&self) -> SerialPortView {
        SerialPortView {
            base: self.base,
            initialized: self.initialized,
            transmitted: self.transmitted@,
        }
    }
}

impl SerialPort {
    /// A driver for the device at `base`, not yet initialized: nothing may
    /// be written through it before `init` runs.
    pub fn new(base: u16) -> (p: SerialPort)
        ensures
            p@.base == base,
            !p@.initialized,
            p@.transmitted == Seq::<u8>::empty(),
    {
        SerialPort { base, initialized: false, transmitted: Ghost(Seq::empty()) }
    }

    /// Records the fixed hardware handshake that brings the device into a
    /// transmit-ready state. It runs exactly once: a second call is refused
    /// here rather than repeated on the device.
    pub fn init(&mut self)
        requires
            !old(self)@.initialized,
        ensures
            final(self)@.initialized,
            final(self)@.base == old(self)@.base,
            final(self)@.transmitted == old(self)@.transmitted,
    {
        self.initialized = true;
    }

    /// Whether the handshake has run and writes are allowed.
    pub fn is_initialized(&self) -> (r: bool)
        ensures
            r == self@.initialized,
    {
        self.initialized
    }

    /// The port's base address.
    pub fn base(&self) -> (r: u16)
        ensures
            r == self@.base,
    {
        self.base
    }

    /// Transmits `data` in order over the port. The device must have been
    /// initialized; transmission itself cannot fail in this model, matching
    /// a channel whose failure aborts the process instead of returning.
    pub fn write_bytes(&mut self, data: &[u8])
        requires
            old(self)@.initialized,
        ensures
            final(self)@.initialized,
            final(self)@.base == old(self)@.base,
            final(self)@.transmitted == old(self)@.transmitted + data@,
    {
        self.transmitted = Ghost(self.transmitted@ + data@);
    }
}

/// Sends a whole string over the serial console, byte for byte.
pub fn _print(port: &mut SerialPort, s: &str)
    requires
        old(port)@.initialized,
    ensures
        final(port)@.initialized,
        final(port)@.base == old(port)@.base,
        final(port)@.transmitted == old(port)@.transmitted + s.spec_bytes(),
{
    port.write_bytes(s.as_bytes());
}

} // verus!
