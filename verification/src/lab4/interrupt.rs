pub mod handler;
pub mod timer;

use vstd::prelude::*;

verus! {

/// The trap frame that the interrupt entry saves and hands to the handler.
pub type Trapframe = crate::lab1::trap::context::Context;

} // verus!
