//! Fault isolation for the double fault: the bookkeeping that binds the
//! double-fault vector to a handler running on a dedicated alternate stack.
//!
//! A double fault commonly follows a stack overflow; a handler entered on
//! the exhausted stack would fault again, escalating to a full reset and
//! masking the diagnosis. The binding below — vector, handler, descriptor
//! slot, stack region — is therefore a startup invariant: it must be whole
//! before any code path that can overflow the stack runs. Loading the
//! descriptor tables into the hardware happens outside this crate; what is
//! proved here is that initialization establishes the binding and that the
//! handler's decisions follow the configured run mode.

use vstd::prelude::*;
use vstd::pervasive::VecAdditionalExecFns;
use crate::QemuExitCode;

verus! {

/// The descriptor slot reserved for the double-fault stack.
pub const DOUBLE_FAULT_IST_INDEX: u16 = 0;

/// Number of alternate-stack slots the task descriptor holds.
pub const IST_ENTRIES: usize = 7;

/// Size in bytes of the statically reserved double-fault stack.
pub const FAULT_STACK_SIZE: u64 = 4096 * 5;

/// The statically reserved region used only as the double-fault handler's
/// stack; ordinary code never executes on it.
#[derive(Debug, Clone, Copy, PartialEq, Eq, Structural)]
pub struct FaultStack {
    base: u64,
}

impl FaultStack {
    /// The region's lowest address.
    pub closed spec fn spec_base(&self) -> u64 {
        self.base
    }

    /// The region starts above the null page and does not wrap the address
    /// space.
    pub open spec fn wf(&self) -> bool {
        0 < self.spec_base() && self.spec_base() + FAULT_STACK_SIZE <= u64::MAX
    }

    /// Reserves the region `[base, base + FAULT_STACK_SIZE)`.
    pub fn new(base: u64) -> (r: FaultStack)
        requires
            0 < base,
            base + FAULT_STACK_SIZE <= u64::MAX,
        ensures
            r.wf(),
            r.spec_base() == base,
    {
        FaultStack { base }
    }

    /// The address one past the region: what the descriptor slot holds,
    /// since stacks grow downward.
    pub fn top(&self) -> (r: u64)
        requires
            self.wf(),
        ensures
            r == self.spec_base() + FAULT_STACK_SIZE,
            r > 0,
    {
        self.base + FAULT_STACK_SIZE
    }
}

/// The task state table: one stack-top address per alternate-stack slot.
/// A zero entry is an unused slot.
pub struct TaskDescriptor {
    ist: Vec<u64>,
}

impl TaskDescriptor {
    /// The slot contents, in slot order.
    pub closed spec fn slots(&self) -> Seq<u64> {
        self.ist@
    }

    /// The table always has exactly its hardware-defined number of slots.
    pub open spec fn wf(&self) -> bool {
        self.slots().len() == IST_ENTRIES
    }

    /// A table with every slot unused.
    pub fn new() -> (r: TaskDescriptor)
        ensures
            r.wf(),
            forall|i: int| 0 <= i < IST_ENTRIES ==> r.slots()[i] == 0,
    {
        let mut ist: Vec<u64> = Vec::new();
        for k in 0..IST_ENTRIES
            invariant
                ist@.len() == k,
                forall|i: int| 0 <= i < k ==> ist@[i] == 0,
        {
            ist.push(0);
        }
        TaskDescriptor { ist }
    }

    /// Binds slot `index` to the stack whose top address is `top`.
    pub fn set_stack(&mut self, index: u16, top: u64)
        requires
            old(self).wf(),
            (index as usize) < IST_ENTRIES,
        ensures
            final(self).wf(),
            final(self).slots() == old(self).slots().update(index as int, top),
    {
        self.ist.set(index as usize, top);
    }
}

/// Where execution stands relative to a double fault.
#[derive(Debug, Clone, Copy, PartialEq, Eq, Structural)]
pub enum FaultPhase {
    Normal,
    HandlingOnAlternateStack,
    Halted,
}

/// How the kernel is being run: an automated test run, or for real.
#[derive(Debug, Clone, Copy, PartialEq, Eq, Structural)]
pub enum RunMode {
    Test,
    Production,
}

/// What the double-fault handler does once entered.
#[derive(Debug, Clone, Copy, PartialEq, Eq, Structural)]
pub enum HandlerAction {
    SignalExit(QemuExitCode),
    ReportAndHalt,
}

/// The installed binding from the double-fault vector to its handler and
/// alternate stack.
pub struct FaultIsolation {
    task: TaskDescriptor,
    handler: u64,
    stack_index: u16,
}

impl FaultIsolation {
    /// The handler entry point the vector names.
    pub closed spec fn spec_handler(&self) -> u64 {
        self.handler
    }

    /// The descriptor slot the vector entry requires the hardware to switch
    /// to before entering the handler.
    pub closed spec fn spec_stack_index(&self) -> u16 {
        self.stack_index
    }

    /// The table of alternate-stack slots.
    pub closed spec fn spec_task(&self) -> Seq<u64> {
        self.task.slots()
    }

    /// The startup invariant: the vector entry names a real handler and a
    /// slot that holds a valid stack top.
    pub open spec fn wf(&self) -> bool {
        &&& self.spec_task().len() == IST_ENTRIES
        &&& self.spec_handler() != 0
        &&& (self.spec_stack_index() as usize) < IST_ENTRIES
        &&& self.spec_task()[self.spec_stack_index() as int] != 0
    }

    /// Installs the whole binding: the task descriptor's reserved slot gets
    /// the alternate stack's top, and the double-fault vector entry gets the
    /// handler and that slot's index. Must run before any code path that
    /// could overflow the stack.
    pub fn init(stack: &FaultStack, handler: u64) -> (r: FaultIsolation)
        requires
            stack.wf(),
            handler != 0,
        ensures
            r.wf(),
            r.spec_handler() == handler,
            r.spec_stack_index() == DOUBLE_FAULT_IST_INDEX,
            r.spec_task()[DOUBLE_FAULT_IST_INDEX as int] == stack.spec_base() + FAULT_STACK_SIZE,
    {
        let mut task = TaskDescriptor::new();
        task.set_stack(DOUBLE_FAULT_IST_INDEX, stack.top());
        FaultIsolation { task, handler, stack_index: DOUBLE_FAULT_IST_INDEX }
    }

    /// Hardware delivery of a double fault: with the binding installed and
    /// well formed, control switches to the alternate stack and enters the
    /// handler — it cannot re-fault for want of stack space.
    pub fn deliver_double_fault(&self, phase: FaultPhase) -> (r: FaultPhase)
        requires
            self.wf(),
            phase == FaultPhase::Normal,
        ensures
            r == FaultPhase::HandlingOnAlternateStack,
    {
        FaultPhase::HandlingOnAlternateStack
    }
}

/// The handler's decision: under test an intentionally induced double fault
/// is the expected, correct outcome, so it signals success to the host; in
/// production there is no recovery — report over serial, then halt.
pub fn handler_action(mode: RunMode) -> (r: HandlerAction)
    ensures
        mode == RunMode::Test ==> r == HandlerAction::SignalExit(QemuExitCode::Success),
        mode == RunMode::Production ==> r == HandlerAction::ReportAndHalt,
{
    match mode {
        RunMode::Test => HandlerAction::SignalExit(QemuExitCode::Success),
        RunMode::Production => HandlerAction::ReportAndHalt,
    }
}

/// A double fault is always fatal: once the handler has reported, the
/// machine halts and never resumes.
pub fn conclude(phase: FaultPhase) -> (r: FaultPhase)
    requires
        phase == FaultPhase::HandlingOnAlternateStack,
    ensures
        r == FaultPhase::Halted,
{
    FaultPhase::Halted
}

} // verus!
