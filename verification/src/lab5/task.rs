pub mod processor;
pub mod structs;

use vstd::prelude::*;

verus! {

/// Thread identifier.
pub type Tid = usize;

/// Exit code of a thread.
pub type ExitCode = usize;

} // verus!
