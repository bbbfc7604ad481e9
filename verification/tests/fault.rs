use kurogane_os::fault::{
    conclude, handler_action, FaultIsolation, FaultPhase, FaultStack, HandlerAction, RunMode,
    FAULT_STACK_SIZE,
};
use kurogane_os::QemuExitCode;

#[test]
fn fault_stack_top_is_end_of_region() {
    let stack = FaultStack::new(0x0010_0000);
    assert_eq!(stack.top(), 0x0010_0000 + FAULT_STACK_SIZE);
    assert_eq!(FAULT_STACK_SIZE, 4096 * 5);
}

#[test]
fn double_fault_routes_to_handler_and_signals_success() {
    // An intentionally induced double fault after initialization reaches
    // the handler on the alternate stack; under test the handler signals
    // the success exit code, and the run ends halted, not reset.
    let stack = FaultStack::new(0x0010_0000);
    let isolation = FaultIsolation::init(&stack, 0xdead_beef);
    let phase = isolation.deliver_double_fault(FaultPhase::Normal);
    assert_eq!(phase, FaultPhase::HandlingOnAlternateStack);
    let action = handler_action(RunMode::Test);
    assert_eq!(action, HandlerAction::SignalExit(QemuExitCode::Success));
    match action {
        HandlerAction::SignalExit(code) => assert_eq!(code.port_value(), 0x10),
        HandlerAction::ReportAndHalt => unreachable!(),
    }
    assert_eq!(conclude(phase), FaultPhase::Halted);
}

#[test]
fn production_handler_reports_and_halts() {
    assert_eq!(handler_action(RunMode::Production), HandlerAction::ReportAndHalt);
}
