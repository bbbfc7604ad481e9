//! The test-runner abstraction: each test is a zero-argument operation; the
//! harness runs them in sequence, announces the total over the serial
//! channel, and ends the run with the host exit signal — success when every
//! test completed, failure as soon as one panics.
//!
//! Running a test and printing are outside work; this module decides, from
//! how far the run has come, what the harness does next.

use vstd::prelude::*;
use crate::QemuExitCode;

verus! {

/// The harness's next move: run the test with the given index, or end the
/// run by signalling the host.
#[derive(Debug, Clone, Copy, PartialEq, Eq, Structural)]
pub enum RunnerStep {
    Run(usize),
    Exit(QemuExitCode),
}

/// The count announced before any test runs: exactly the number of tests.
pub fn announced_total(total: usize) -> (r: usize)
    ensures
        r == total,
{
    total
}

/// Decides the harness's next move once `completed` of `total` tests have
/// finished and `panicked` says whether one of them panicked: a panic ends
/// the run with failure at once, a finished list ends it with success, and
/// otherwise the next test in order runs. An empty list therefore ends with
/// success immediately.
pub fn next_step(total: usize, completed: usize, panicked: bool) -> (r: RunnerStep)
    ensures
        panicked ==> r == RunnerStep::Exit(QemuExitCode::Failure),
        !panicked && completed < total ==> r == RunnerStep::Run(completed),
        !panicked && completed >= total ==> r == RunnerStep::Exit(QemuExitCode::Success),
{
    if panicked {
        RunnerStep::Exit(QemuExitCode::Failure)
    } else if completed < total {
        RunnerStep::Run(completed)
    } else {
        RunnerStep::Exit(QemuExitCode::Success)
    }
}

} // verus!
