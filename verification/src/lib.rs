//! Verified core of a small RISC-V teaching kernel and of a set of
//! operating-systems exercises: the fixed-size run queue and the
//! round-robin processor, thread and context bookkeeping, trap dispatch,
//! and the decision logic of the classic synchronisation programs.
pub mod my_own_os;
pub mod lab3;
pub mod lab1;
pub mod lab4;

pub mod lab5;
pub mod ostep_rust;
