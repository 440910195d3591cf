//! The register image that a new kernel thread starts from, and the saved
//! stack pointer that identifies a suspended thread.
//!
//! Storing the image into the thread's stack is a raw memory write that the
//! caller performs at the address these functions are given; what is
//! computed here is where things go and what the thread record holds.
use vstd::prelude::*;
use crate::lab3::thread::structs::Thread;

verus! {

/// Bytes taken by a `Contextcontent` on the 64-bit target: twelve callee-saved
/// registers and the return address.
pub const CONTEXT_BYTES: usize = 13 * 8;

/// The registers restored when a thread is first switched to.
#[derive(Copy, Clone)]
pub struct Contextcontent {
    pub x: [usize; 12],
    pub ra: usize,
}

/// Where a suspended thread's register image lies.
#[derive(Copy, Clone)]
pub struct Context {
    pub addr: usize,
}

impl Contextcontent {
    /// An image with the given saved registers and return address.
    pub fn new(x: [usize; 12], ra: usize) -> (c: Self)
        ensures
            c.x == x,
            c.ra == ra,
    {
        Contextcontent { x, ra }
    }

    /// The image is stored at `addr`; the returned context points one image
    /// below it.
    pub fn load_context(self, addr: usize) -> (c: Context)
        requires
            addr >= CONTEXT_BYTES,
        ensures
            c.addr == addr - CONTEXT_BYTES,
    {
        Context { addr: addr - CONTEXT_BYTES }
    }

    /// A thread whose image is stored one image below `stack_top` and whose
    /// context and kernel stack both record `stack_top`.
    pub fn new_thread(self, stack_top: usize) -> (t: Thread)
        requires
            stack_top >= 2 * CONTEXT_BYTES,
        ensures
            t.context.addr == stack_top,
            t.Kernalstack == stack_top,
    {
        self.load_context(stack_top - CONTEXT_BYTES);
        Thread { context: Context::new(stack_top), Kernalstack: stack_top }
    }
}

impl Context {
    /// A context pointing at `addr`.
    pub fn new(addr: usize) -> (c: Self)
        ensures
            c.addr == addr,
    {
        Context { addr }
    }
}

} // verus!
