//! Core of a minimal freestanding kernel: a text-mode framebuffer writer,
//! a serial console protocol model, fault-isolation bookkeeping for the
//! double-fault path, a test-runner state machine, and the one-byte exit
//! signal consumed by the controlling host.
//!
//! Everything that touches real hardware (the memory-mapped framebuffer,
//! the UART, port output, descriptor-table loads) lives outside this crate;
//! this crate holds the state, the transitions and their proofs.

use vstd::prelude::*;

pub mod fault;
pub mod runner;
pub mod serial;
pub mod vga_buffer;

verus! {

/// Status code reported to the controlling host when an automated run ends.
#[derive(Debug, Clone, Copy, PartialEq, Eq, Structural)]
pub enum QemuExitCode {
    Success,
    Failure,
}

/// The value the host expects on the exit port for each outcome.
pub open spec fn exit_port_value(code: QemuExitCode) -> u32 {
    match code {
        QemuExitCode::Success => 0x10,
        QemuExitCode::Failure => 0x11,
    }
}

impl QemuExitCode {
    /// The byte written to the fixed exit port to signal this outcome.
    pub fn port_value(self) -> (r: u32)
        ensures
            r == exit_port_value(self),
    {
        match self {
            QemuExitCode::Success => 0x10,
            QemuExitCode::Failure => 0x11,
        }
    }
}

/// Smoke check: the simplest possible runnable test body.
pub fn trivial_assertion() -> (r: bool)
    ensures
        r,
{
    let one: u64 = 1;
    one == 1
}

} // verus!
