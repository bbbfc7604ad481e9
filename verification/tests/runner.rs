use kurogane_os::runner::{announced_total, next_step, RunnerStep};
use kurogane_os::QemuExitCode;

#[test]
fn empty_test_list_reports_zero_and_succeeds() {
    // Running the harness over no tests announces zero tests and still
    // ends with the success exit code.
    assert_eq!(announced_total(0), 0);
    let step = next_step(0, 0, false);
    assert_eq!(step, RunnerStep::Exit(QemuExitCode::Success));
    match step {
        RunnerStep::Exit(code) => assert_eq!(code.port_value(), 0x10),
        RunnerStep::Run(_) => unreachable!(),
    }
}

#[test]
fn tests_run_in_order_then_succeed() {
    assert_eq!(announced_total(2), 2);
    assert_eq!(next_step(2, 0, false), RunnerStep::Run(0));
    assert_eq!(next_step(2, 1, false), RunnerStep::Run(1));
    assert_eq!(next_step(2, 2, false), RunnerStep::Exit(QemuExitCode::Success));
}

#[test]
fn panic_ends_run_with_failure() {
    let step = next_step(3, 1, true);
    assert_eq!(step, RunnerStep::Exit(QemuExitCode::Failure));
    match step {
        RunnerStep::Exit(code) => assert_eq!(code.port_value(), 0x11),
        RunnerStep::Run(_) => unreachable!(),
    }
}
