//! Kernel tasks: the register image a new task starts from, where it is
//! pushed on the task's kernel stack, and the task record.
//!
//! Pushing the image is a raw memory write that the caller performs at the
//! address `push_at` returns; what is computed here is that address and the
//! records that describe the task.
use vstd::prelude::*;

verus! {

/// Bytes taken by a `ContextContent` on the 64-bit target: the return
/// address, `satp` and twelve callee-saved registers.
pub const CONTEXT_CONTENT_BYTES: usize = 14 * 8;

/// The registers restored when a task is first switched to.
#[derive(Copy, Clone)]
pub struct ContextContent {
    pub ra: usize,
    pub satp: usize,
    pub s: [usize; 12],
}

impl ContextContent {
    /// The image of a new kernel thread that enters at `entry` and runs with
    /// the page table `satp`; its callee-saved registers are zero.
    pub fn new_kernel_thread(entry: usize, kstack_top: usize, satp: usize) -> (content: ContextContent)
        ensures
            content.ra == entry,
            content.satp == satp,
            content.s@ == Seq::new(12, |i: int| 0usize),
    {
        let content = ContextContent { ra: entry, satp, s: [0; 12] };
        assert(content.s@ =~= Seq::new(12, |i: int| 0usize));
        content
    }

    /// The image goes just below `stack_top`; the returned context points
    /// at it.
    pub fn push_at(self, stack_top: usize) -> (c: Context)
        requires
            stack_top >= CONTEXT_CONTENT_BYTES,
        ensures
            c.content_addr == stack_top - CONTEXT_CONTENT_BYTES,
    {
        Context { content_addr: stack_top - CONTEXT_CONTENT_BYTES }
    }
}

/// Where a suspended task's register image lies: its saved stack pointer.
pub struct Context {
    pub content_addr: usize,
}

impl Context {
    /// The context of a new kernel thread whose image is pushed on the stack
    /// whose top is `kstack_top`.
    pub fn new_kernel_thread(entry: usize, kstack_top: usize, satp: usize) -> (c: Context)
        requires
            kstack_top >= CONTEXT_CONTENT_BYTES,
        ensures
            c.content_addr == kstack_top - CONTEXT_CONTENT_BYTES,
    {
        ContextContent::new_kernel_thread(entry, kstack_top, satp).push_at(kstack_top)
    }
}

/// The top of a task's kernel stack.
pub struct KernelStack(pub usize);

/// A kernel task: its saved context and its kernel stack.
pub struct Task {
    pub context: Context,
    pub kstack: KernelStack,
}

impl Task {
    /// A task that enters at `entry` on the kernel stack whose top is
    /// `kstack`, with the page table `satp`.
    pub fn new(entry: usize, kstack: usize, satp: usize) -> (t: Self)
        requires
            kstack >= CONTEXT_CONTENT_BYTES,
        ensures
            t.context.content_addr == kstack - CONTEXT_CONTENT_BYTES,
            t.kstack.0 == kstack,
    {
        Task { context: Context::new_kernel_thread(entry, kstack, satp), kstack: KernelStack(kstack) }
    }
}

} // verus!
