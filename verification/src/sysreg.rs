//! The CPU interface and the other system registers the bring-up path
//! touches, modelled as one owned register file.
//!
//! The architectural quirk that shapes this layer: the group-enable
//! register can only be written once the system-register interface is
//! enabled, so `enable_group1` demands it; and the system-register enable
//! itself may be ignored by hardware that does not support it, which is
//! detected by reading the bit back and reported as a fatal error.

use vstd::prelude::*;

use crate::common::GicError;

verus! {

/// System-register-interface enable bit of the SRE register.
pub const ICC_SRE_ENABLE_BIT: u64 = 0x1;

/// Group 1 enable bit of the group-enable register.
pub const ICC_IGRPEN1_ENABLE_BIT: u64 = 0x1;

/// The least restrictive priority mask: every priority is accepted.
pub const PMR_ACCEPT_ALL: u8 = 0xFF;

/// The interrupt mask bit of the processor's exception-mask register, as
/// the mask set/clear operations encode it.
pub const DAIF_IRQ_MASK_BIT: u64 = 0x2;

/// The processor's system registers, as one owned register file.
pub struct SysRegs {
    icc_sre: u64,
    icc_pmr: u64,
    icc_igrpen1: u64,
    vbar: u64,
    daif: u64,
    current_el_raw: u64,
    sre_supported: bool,
}

impl SysRegs {
    /// Value of the system-register-interface enable register.
    pub closed spec fn icc_sre(self) -> u64 {
        self.icc_sre
    }

    /// Value of the priority-mask register.
    pub closed spec fn icc_pmr(self) -> u64 {
        self.icc_pmr
    }

    /// Value of the Group 1 enable register.
    pub closed spec fn icc_igrpen1(self) -> u64 {
        self.icc_igrpen1
    }

    /// Value of the vector-table base register.
    pub closed spec fn vbar(self) -> u64 {
        self.vbar
    }

    /// Value of the processor's exception-mask bits.
    pub closed spec fn daif(self) -> u64 {
        self.daif
    }

    /// Raw value of the current-exception-level register.
    pub closed spec fn current_el_raw(self) -> u64 {
        self.current_el_raw
    }

    /// Whether the hardware honours writes of the system-register enable.
    pub closed spec fn sre_supported(self) -> bool {
        self.sre_supported
    }

    /// The system-register interface is enabled.
    pub open spec fn sre_enabled(self) -> bool {
        self.icc_sre() & ICC_SRE_ENABLE_BIT != 0
    }

    /// Group 1 interrupt signalling is enabled at the core.
    pub open spec fn group1_enabled(self) -> bool {
        self.icc_igrpen1() & ICC_IGRPEN1_ENABLE_BIT != 0
    }

    /// Interrupts are unmasked at the core.
    pub open spec fn irqs_unmasked(self) -> bool {
        self.daif() & DAIF_IRQ_MASK_BIT == 0
    }

    /// The whole CPU-interface bring-up has taken effect.
    pub open spec fn cpu_interface_ready(self) -> bool {
        &&& self.sre_enabled()
        &&& self.icc_pmr() == PMR_ACCEPT_ALL
        &&& self.group1_enabled()
        &&& self.irqs_unmasked()
    }

    /// A register file as the boot entry leaves it: interrupts masked,
    /// nothing configured.
    pub fn new(current_el_raw: u64, sre_supported: bool) -> (regs: SysRegs)
        ensures
            regs.icc_sre() == 0,
            regs.icc_pmr() == 0,
            regs.icc_igrpen1() == 0,
            regs.vbar() == 0,
            regs.daif() == DAIF_IRQ_MASK_BIT,
            regs.current_el_raw() == current_el_raw,
            regs.sre_supported() == sre_supported,
            !regs.irqs_unmasked(),
    {
        proof {
            assert(0x2u64 & 0x2u64 != 0) by (bit_vector);
        }
        SysRegs {
            icc_sre: 0,
            icc_pmr: 0,
            icc_igrpen1: 0,
            vbar: 0,
            daif: DAIF_IRQ_MASK_BIT,
            current_el_raw,
            sre_supported,
        }
    }

    /// Enable the system-register interface: OR the enable bit into the
    /// register, write it back, and read it back to check that the write
    /// took effect.  A write the hardware ignored is a fatal
    /// misconfiguration and is reported, not masked.
    pub fn enable_sre(&mut self) -> (result: Result<(), GicError>)
        ensures
            final(self).icc_pmr() == old(self).icc_pmr(),
            final(self).icc_igrpen1() == old(self).icc_igrpen1(),
            final(self).vbar() == old(self).vbar(),
            final(self).daif() == old(self).daif(),
            final(self).current_el_raw() == old(self).current_el_raw(),
            final(self).sre_supported() == old(self).sre_supported(),
            old(self).sre_supported() ==> result == Ok::<(), GicError>(())
                && final(self).sre_enabled() && final(self).icc_sre() == old(self).icc_sre()
                | ICC_SRE_ENABLE_BIT,
            !old(self).sre_supported() ==> final(self).icc_sre() == old(self).icc_sre() && (
            result == Ok::<(), GicError>(()) <==> old(self).sre_enabled()),
            result is Ok <==> final(self).sre_enabled(),
            result is Err ==> result == Err::<(), GicError>(GicError::SreWriteIgnored),
    {
        let desired = self.icc_sre | ICC_SRE_ENABLE_BIT;
        if self.sre_supported {
            self.icc_sre = desired;
        }
        proof {
            let v = old(self).icc_sre();
            assert((v | 0x1u64) & 0x1u64 != 0) by (bit_vector);
        }
        if self.icc_sre & ICC_SRE_ENABLE_BIT != 0 {
            Ok(())
        } else {
            Err(GicError::SreWriteIgnored)
        }
    }

    /// Set the priority mask: priorities up to and including the mask are
    /// accepted.
    pub fn set_priority_mask(&mut self, mask: u8)
        ensures
            final(self).icc_pmr() == mask as u64,
            final(self).icc_sre() == old(self).icc_sre(),
            final(self).icc_igrpen1() == old(self).icc_igrpen1(),
            final(self).vbar() == old(self).vbar(),
            final(self).daif() == old(self).daif(),
            final(self).current_el_raw() == old(self).current_el_raw(),
            final(self).sre_supported() == old(self).sre_supported(),
    {
        self.icc_pmr = mask as u64;
    }

    /// Enable Group 1 interrupt signalling at the core.  Writing this
    /// register before the system-register interface is enabled faults
    /// synchronously, so that order is a precondition.
    pub fn enable_group1(&mut self)
        requires
            old(self).sre_enabled(),
        ensures
            final(self).icc_igrpen1() == old(self).icc_igrpen1() | ICC_IGRPEN1_ENABLE_BIT,
            final(self).group1_enabled(),
            final(self).icc_sre() == old(self).icc_sre(),
            final(self).sre_enabled(),
            final(self).icc_pmr() == old(self).icc_pmr(),
            final(self).vbar() == old(self).vbar(),
            final(self).daif() == old(self).daif(),
            final(self).current_el_raw() == old(self).current_el_raw(),
            final(self).sre_supported() == old(self).sre_supported(),
    {
        proof {
            let v = old(self).icc_igrpen1();
            assert((v | 0x1u64) & 0x1u64 != 0) by (bit_vector);
        }
        self.icc_igrpen1 = self.icc_igrpen1 | ICC_IGRPEN1_ENABLE_BIT;
    }

    /// Unmask interrupts at the core's exception-mask register.
    pub fn unmask_irqs(&mut self)
        ensures
            final(self).daif() == old(self).daif() & !DAIF_IRQ_MASK_BIT,
            final(self).irqs_unmasked(),
            final(self).icc_sre() == old(self).icc_sre(),
            final(self).icc_pmr() == old(self).icc_pmr(),
            final(self).icc_igrpen1() == old(self).icc_igrpen1(),
            final(self).vbar() == old(self).vbar(),
            final(self).current_el_raw() == old(self).current_el_raw(),
            final(self).sre_supported() == old(self).sre_supported(),
    {
        proof {
            let v = old(self).daif();
            assert((v & !0x2u64) & 0x2u64 == 0) by (bit_vector);
        }
        self.daif = self.daif & !DAIF_IRQ_MASK_BIT;
    }

    /// Install the vector-table base register.  No validation is possible
    /// at this layer: table layout and alignment belong to the table
    /// itself.
    pub fn set_vbar(&mut self, vector_table_base: u64)
        ensures
            final(self).vbar() == vector_table_base,
            final(self).icc_sre() == old(self).icc_sre(),
            final(self).icc_pmr() == old(self).icc_pmr(),
            final(self).icc_igrpen1() == old(self).icc_igrpen1(),
            final(self).daif() == old(self).daif(),
            final(self).current_el_raw() == old(self).current_el_raw(),
            final(self).sre_supported() == old(self).sre_supported(),
    {
        self.vbar = vector_table_base;
    }

    /// Read the raw current-exception-level register.
    pub fn read_current_el(&self) -> (raw: u64)
        ensures
            raw == self.current_el_raw(),
    {
        self.current_el_raw
    }

    /// Read the vector-table base register.
    pub fn read_vbar(&self) -> (raw: u64)
        ensures
            raw == self.vbar(),
    {
        self.vbar
    }

    /// Read the system-register-interface enable register.
    pub fn read_icc_sre(&self) -> (raw: u64)
        ensures
            raw == self.icc_sre(),
    {
        self.icc_sre
    }

    /// Read the priority-mask register.
    pub fn read_icc_pmr(&self) -> (raw: u64)
        ensures
            raw == self.icc_pmr(),
    {
        self.icc_pmr
    }

    /// Read the Group 1 enable register.
    pub fn read_icc_igrpen1(&self) -> (raw: u64)
        ensures
            raw == self.icc_igrpen1(),
    {
        self.icc_igrpen1
    }

    /// Read the processor's exception-mask bits.
    pub fn read_daif(&self) -> (raw: u64)
        ensures
            raw == self.daif(),
    {
        self.daif
    }
}

} // verus!
