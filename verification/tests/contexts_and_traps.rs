use rcore_labs::lab1::trap::context::Context as TrapContext;
use rcore_labs::lab3::thread::context::{Context, Contextcontent, CONTEXT_BYTES};
use rcore_labs::lab3::thread::structs::Thread;
use rcore_labs::lab4::interrupt::handler::{handle_interrupt, InterruptAction};
use rcore_labs::lab4::interrupt::timer::{next_timer_deadline, INTERVAL};
use rcore_labs::lab5::task::structs::{Context as TaskContext, ContextContent, Task, CONTEXT_CONTENT_BYTES};
use riscv::register::sstatus::Sstatus;

fn frame(sepc: usize) -> TrapContext {
    TrapContext { regs: [7; 32], sstatus: Sstatus::from_bits(0x22), sepc }
}

#[test]
fn context_content_keeps_registers() {
    let c = Contextcontent::new([1; 12], 0x8020_0000);
    assert_eq!(c.x, [1; 12]);
    assert_eq!(c.ra, 0x8020_0000);
}

#[test]
fn load_context_points_one_image_below() {
    let c = Contextcontent::new([0; 12], 42);
    let ctx = c.load_context(0x1000);
    assert_eq!(ctx.addr, 0x1000 - 104);
    assert_eq!(CONTEXT_BYTES, 104);
    assert_eq!(Context::new(5).addr, 5);
}

#[test]
fn new_thread_records_stack_top() {
    let t = Thread::new([0; 12], 0x8020_1000, 0x9000);
    assert_eq!(t.context.addr, 0x9000);
    assert_eq!(t.Kernalstack, 0x9000);
}

#[test]
fn task_context_sits_below_stack_top() {
    let t = Task::new(0x8020_0000, 0x1_0000, 0x8000_0000_0008_0000);
    assert_eq!(t.context.content_addr, 0x1_0000 - 112);
    assert_eq!(t.kstack.0, 0x1_0000);
    assert_eq!(CONTEXT_CONTENT_BYTES, 112);
    let ctx = TaskContext::new_kernel_thread(1, 0x2000, 3);
    assert_eq!(ctx.content_addr, 0x2000 - 112);
    let content = ContextContent::new_kernel_thread(0x1234, 0x2000, 3);
    assert_eq!(content.ra, 0x1234);
    assert_eq!(content.satp, 3);
    assert_eq!(content.s, [0; 12]);
    assert_eq!(content.push_at(0x3000).content_addr, 0x3000 - 112);
}

#[test]
fn breakpoint_steps_over_ebreak() {
    let mut f = frame(0x8020_0010);
    let action = handle_interrupt(&mut f, 3, 0);
    assert_eq!(action, InterruptAction::Breakpoint);
    assert_eq!(f.sepc, 0x8020_0012);
    assert_eq!(f.regs, [7; 32]);
    assert_eq!(f.sstatus.bits(), Sstatus::from_bits(0x22).bits());
}

#[test]
fn timer_interrupt_is_passed_on() {
    let mut f = frame(0x8020_0010);
    let scause = (1usize << (usize::BITS - 1)) | 5;
    let action = handle_interrupt(&mut f, scause, 0);
    assert_eq!(action, InterruptAction::TimerTick);
    assert_eq!(f.sepc, 0x8020_0010);
}

#[test]
fn other_causes_are_ignored() {
    let mut f = frame(0x100);
    // Interrupt code 3 is not the timer; exception code 5 is not a breakpoint.
    assert_eq!(handle_interrupt(&mut f, (1usize << (usize::BITS - 1)) | 3, 0), InterruptAction::Ignored);
    assert_eq!(handle_interrupt(&mut f, 5, 0), InterruptAction::Ignored);
    assert_eq!(handle_interrupt(&mut f, 8, 0), InterruptAction::Ignored);
    assert_eq!(f.sepc, 0x100);
}

#[test]
fn next_timer_is_one_interval_later() {
    assert_eq!(next_timer_deadline(1_000), 101_000);
    assert_eq!(INTERVAL, 100_000);
}
