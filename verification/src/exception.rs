//! Exception levels, the trapped-context snapshot, and vector-table
//! installation.
//!
//! The dispatch contract: on a trapped interrupt the processor saves a
//! fixed-layout frame — 31 general-purpose registers plus the two control
//! registers describing the interrupted state — and hands it to the handler
//! by reference, read-only.  The handler returns normally and execution
//! resumes at the saved location.

use vstd::prelude::*;

use crate::sysreg::SysRegs;

verus! {

/// Number of general-purpose registers saved on a trap.
pub const SAVED_GPR_COUNT: usize = 31;

/// A privilege level of the processor.
#[derive(Clone, Copy, Debug, PartialEq, Eq, Structural)]
pub enum ExceptionLevel {
    EL0,
    EL1,
    EL2,
    EL3,
}

/// The exception level encoded by a raw current-exception-level register
/// value: the level sits in bits 3:2.
pub open spec fn spec_exception_level(raw: u64) -> ExceptionLevel {
    if (raw >> 2) & 0x3 == 0 {
        ExceptionLevel::EL0
    } else if (raw >> 2) & 0x3 == 1 {
        ExceptionLevel::EL1
    } else if (raw >> 2) & 0x3 == 2 {
        ExceptionLevel::EL2
    } else {
        ExceptionLevel::EL3
    }
}

/// The fixed-layout snapshot of the interrupted state: the saved
/// general-purpose registers, the saved return address, and the saved
/// processor state.  Trap entry creates it; the handler reads it; it is
/// discarded on return.
pub struct ExceptionContext {
    regs: [u64; 31],
    elr_el1: u64,
    spsr_el1: u64,
}

impl ExceptionContext {
    /// The saved general-purpose registers.
    pub closed spec fn gprs(self) -> Seq<u64> {
        self.regs@
    }

    /// The saved return address.
    pub closed spec fn elr(self) -> u64 {
        self.elr_el1
    }

    /// The saved processor state.
    pub closed spec fn spsr(self) -> u64 {
        self.spsr_el1
    }

    /// Assemble a context snapshot, as trap entry does.
    pub fn new(regs: [u64; 31], elr_el1: u64, spsr_el1: u64) -> (ctx: ExceptionContext)
        ensures
            ctx.gprs() == regs@,
            ctx.elr() == elr_el1,
            ctx.spsr() == spsr_el1,
    {
        ExceptionContext { regs, elr_el1, spsr_el1 }
    }

    /// Read one saved general-purpose register.
    pub fn gpr(&self, index: usize) -> (value: u64)
        requires
            index < SAVED_GPR_COUNT,
        ensures
            value == self.gprs()[index as int],
    {
        self.regs[index]
    }

    /// Read the saved return address.
    pub fn elr_el1(&self) -> (value: u64)
        ensures
            value == self.elr(),
    {
        self.elr_el1
    }

    /// Read the saved processor state.
    pub fn spsr_el1(&self) -> (value: u64)
        ensures
            value == self.spsr(),
    {
        self.spsr_el1
    }
}

/// Install the vector-table base address into the processor's vector-base
/// register: a single privileged register write.
pub fn init_exception_table(regs: &mut SysRegs, vector_table_base: u64)
    ensures
        final(regs).vbar() == vector_table_base,
        final(regs).icc_sre() == old(regs).icc_sre(),
        final(regs).icc_pmr() == old(regs).icc_pmr(),
        final(regs).icc_igrpen1() == old(regs).icc_igrpen1(),
        final(regs).daif() == old(regs).daif(),
        final(regs).current_el_raw() == old(regs).current_el_raw(),
        final(regs).sre_supported() == old(regs).sre_supported(),
{
    regs.set_vbar(vector_table_base);
}

/// Query the current exception level; the level is never mutated by this
/// crate.
pub fn get_current_el(regs: &SysRegs) -> (level: ExceptionLevel)
    ensures
        level == spec_exception_level(regs.current_el_raw()),
{
    let raw = regs.read_current_el();
    let bits = (raw >> 2) & 0x3;
    proof {
        assert((raw >> 2) & 0x3u64 <= 3) by (bit_vector);
    }
    if bits == 0 {
        ExceptionLevel::EL0
    } else if bits == 1 {
        ExceptionLevel::EL1
    } else if bits == 2 {
        ExceptionLevel::EL2
    } else {
        ExceptionLevel::EL3
    }
}

} // verus!
