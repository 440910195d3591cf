//! The register state saved when a trap enters the kernel.
use vstd::prelude::*;
use riscv::register::sstatus::Sstatus;

verus! {

/// The `sstatus` register value of the `riscv` crate, carried through as is.
#[verifier::external_type_specification]
#[verifier::external_body]
pub struct ExSstatus(Sstatus);

/// General registers, `sstatus` and the exception program counter of the
/// interrupted code.
pub struct Context {
    pub regs: [usize; 32],
    pub sstatus: Sstatus,
    pub sepc: usize,
}

} // verus!
