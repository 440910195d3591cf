//! A kernel thread: its saved context and the top of its kernel stack.
use vstd::prelude::*;
use crate::lab3::thread::context::{Context, Contextcontent, CONTEXT_BYTES};

verus! {

/// A kernel thread.
#[allow(non_snake_case)]
#[derive(Copy, Clone)]
pub struct Thread {
    pub context: Context,
    pub Kernalstack: usize,
}

impl Thread {
    /// A thread that starts at `ra` with saved registers `x` on the stack
    /// whose top is `stack_top`.
    pub fn new(x: [usize; 12], ra: usize, stack_top: usize) -> (t: Self)
        requires
            stack_top >= 2 * CONTEXT_BYTES,
        ensures
            t.context.addr == stack_top,
            t.Kernalstack == stack_top,
    {
        Contextcontent::new(x, ra).new_thread(stack_top)
    }
}

} // verus!
