//! Dispatch of a trap on its cause.
//!
//! The cause comes as the raw `scause` value; the `riscv` crate decodes it.
//! What the handler decides is returned, so that the caller prints and
//! re-arms the timer.
use vstd::prelude::*;
use riscv::register::scause::Scause;
use riscv::interrupt::Trap;
use riscv::interrupt::supervisor::{Exception, Interrupt};
use riscv::{ExceptionNumber, InterruptNumber};
use crate::lab4::interrupt::Trapframe;

verus! {

/// A trap cause split into its kind and its code.
#[derive(PartialEq, Eq, Structural, Copy, Clone, Debug)]
pub enum RawTrap {
    Interrupt(usize),
    Exception(usize),
}

/// What `scause` holds: the top bit tells an interrupt from an exception,
/// the other bits are the code.
pub open spec fn raw_trap(scause: usize) -> RawTrap {
    if scause > usize::MAX / 2 {
        RawTrap::Interrupt((scause - usize::MAX / 2 - 1) as usize)
    } else {
        RawTrap::Exception(scause)
    }
}

/// What the handler did, for its caller to finish.
#[derive(PartialEq, Eq, Structural, Copy, Clone, Debug)]
pub enum InterruptAction {
    /// A breakpoint was stepped over: report it.
    Breakpoint,
    /// A timer interrupt arrived: report it and arm the next one.
    TimerTick,
    /// Any other cause: nothing to do.
    Ignored,
}

/// Exception code of a breakpoint.
pub const BREAKPOINT_CODE: usize = 3;

/// Interrupt code of the supervisor timer.
pub const SUPERVISOR_TIMER_CODE: usize = 5;

/// How `handle_interrupt` treats the trap cause `scause`.
pub open spec fn interrupt_action(scause: usize) -> InterruptAction {
    if raw_trap(scause) == RawTrap::Exception(BREAKPOINT_CODE) {
        InterruptAction::Breakpoint
    } else if raw_trap(scause) == RawTrap::Interrupt(SUPERVISOR_TIMER_CODE) {
        InterruptAction::TimerTick
    } else {
        InterruptAction::Ignored
    }
}

/// Which causes the handler acts on: a breakpoint is exactly the exception
/// whose `scause` value is 3, a timer tick exactly the interrupt with code
/// 5 (the top bit set and 5 below it); every other exception or interrupt
/// code is ignored and leaves `sepc` as it was.
pub proof fn lemma_only_breakpoint_and_timer_are_handled(scause: usize)
    ensures
        interrupt_action(scause) == InterruptAction::Breakpoint <==> scause == 3,
        interrupt_action(scause) == InterruptAction::TimerTick <==> scause == usize::MAX / 2 + 1 + 5,
        interrupt_action(scause) == InterruptAction::Ignored <==> (scause != 3 && scause
            != usize::MAX / 2 + 1 + 5),
        raw_trap(scause) == RawTrap::Exception(3) <==> scause == 3,
        raw_trap(scause) == RawTrap::Interrupt(5) <==> scause == usize::MAX / 2 + 1 + 5,
        scause < 3 || (3 < scause <= usize::MAX / 2) ==> raw_trap(scause) == RawTrap::Exception(scause)
            && interrupt_action(scause) == InterruptAction::Ignored,
{
}

/// Decodes `scause` with `Scause::from_bits(..).cause()` of the `riscv`
/// crate: the top bit marks an interrupt, the other bits are the code.
#[verifier::external_body]
fn scause_cause(scause: usize) -> (t: RawTrap)
    ensures
        t == raw_trap(scause),
{
    match Scause::from_bits(scause).cause() {
        Trap::Interrupt(code) => RawTrap::Interrupt(code),
        Trap::Exception(code) => RawTrap::Exception(code),
    }
}

/// The number of `Exception::Breakpoint` of the `riscv` crate, which is 3.
#[verifier::external_body]
fn breakpoint_code() -> (code: usize)
    ensures
        code == BREAKPOINT_CODE,
{
    Exception::Breakpoint.number()
}

/// The number of `Interrupt::SupervisorTimer` of the `riscv` crate, which is 5.
#[verifier::external_body]
fn supervisor_timer_code() -> (code: usize)
    ensures
        code == SUPERVISOR_TIMER_CODE,
{
    Interrupt::SupervisorTimer.number()
}

/// Handles the trap whose cause is `scause`: a breakpoint is stepped over
/// (its compressed instruction is two bytes long), a timer interrupt is
/// passed on, anything else is ignored.
pub fn handle_interrupt(context: &mut Trapframe, scause: usize, stval: usize) -> (action:
    InterruptAction)
    requires
        interrupt_action(scause) == InterruptAction::Breakpoint ==> old(context).sepc + 2
            <= usize::MAX,
    ensures
        action == interrupt_action(scause),
        final(context).regs == old(context).regs,
        final(context).sstatus == old(context).sstatus,
        final(context).sepc == if action == InterruptAction::Breakpoint {
            old(context).sepc + 2
        } else {
            old(context).sepc as int
        },
{
    match scause_cause(scause) {
        RawTrap::Exception(code) => {
            if code == breakpoint_code() {
                breakpoint(context)
            } else {
                InterruptAction::Ignored
            }
        },
        RawTrap::Interrupt(code) => {
            if code == supervisor_timer_code() {
                supervisor_timer(context)
            } else {
                InterruptAction::Ignored
            }
        },
    }
}

/// Steps over the `ebreak` instruction.
fn breakpoint(context: &mut Trapframe) -> (action: InterruptAction)
    requires
        old(context).sepc + 2 <= usize::MAX,
    ensures
        action == InterruptAction::Breakpoint,
        final(context).regs == old(context).regs,
        final(context).sstatus == old(context).sstatus,
        final(context).sepc == old(context).sepc + 2,
{
    context.sepc = context.sepc + 2;
    InterruptAction::Breakpoint
}

/// A timer interrupt leaves the trap frame as it is.
fn supervisor_timer(context: &mut Trapframe) -> (action: InterruptAction)
    ensures
        action == InterruptAction::TimerTick,
        *final(context) == *old(context),
{
    InterruptAction::TimerTick
}

} // verus!
