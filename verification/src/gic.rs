//! A combined handle over one distributor and one redistributor: the
//! single-struct driver surface, with distributor operations and their
//! redistributor mirrors side by side.
//!
//! The typed operations (`set_target` with a `CpuId`, `set_cfg` with an
//! `InterruptType`) cannot be handed an out-of-range value, so they carry no
//! error path; the raw-valued operations with validation live on the two
//! controllers themselves.

use vstd::prelude::*;

use crate::common::{CpuId, GicError, InterruptType};
use crate::frame::{IrqSnapshot, GIC_FRAME_IRQS};
use crate::gic_dist::{dist_step, GicDistributor};
use crate::gic_redist::{redist_step, wake_polls_needed, GicRedist, GICR_IRQS};

verus! {

/// One distributor and one redistributor, owned together.
pub struct Gic {
    dist: GicDistributor,
    redist: GicRedist,
}

impl Gic {
    /// The distributor half.
    pub closed spec fn distributor(self) -> GicDistributor {
        self.dist
    }

    /// The redistributor half.
    pub closed spec fn redistributor(self) -> GicRedist {
        self.redist
    }

    /// Both halves are well-formed.
    pub open spec fn wf(self) -> bool {
        self.distributor().wf() && self.redistributor().wf()
    }

    /// Take ownership of a distributor and a redistributor.
    pub fn new(dist: GicDistributor, redist: GicRedist) -> (gic: Gic)
        ensures
            gic.distributor() == dist,
            gic.redistributor() == redist,
    {
        Gic { dist, redist }
    }

    /// Borrow the distributor half.
    pub fn distributor_ref(&self) -> (dist: &GicDistributor)
        ensures
            *dist == self.distributor(),
    {
        &self.dist
    }

    /// Borrow the redistributor half.
    pub fn redistributor_ref(&self) -> (redist: &GicRedist)
        ensures
            *redist == self.redistributor(),
    {
        &self.redist
    }

    /// Bring up both halves: the distributor's global configuration
    /// sequence, then the redistributor wake handshake with the given poll
    /// bound.  Returns the number of wake polls taken, or the handshake's
    /// timeout error.
    pub fn init_gic(&mut self, poll_bound: u32) -> (result: Result<u32, GicError>)
        requires
            old(self).wf(),
        ensures
            final(self).wf(),
            final(self).distributor().globally_configured(),
            forall|j: u32|
                j < GIC_FRAME_IRQS ==> #[trigger] final(self).distributor().irq(j) == old(
                    self,
                ).distributor().irq(j),
            forall|j: u32|
                j < GICR_IRQS ==> #[trigger] final(self).redistributor().irq(j) == old(
                    self,
                ).redistributor().irq(j),
            final(self).redistributor().awake(),
            wake_polls_needed(old(self).redistributor().asleep_reads()) <= poll_bound
                ==> result == Ok::<u32, GicError>(
                wake_polls_needed(old(self).redistributor().asleep_reads()) as u32,
            ),
            wake_polls_needed(old(self).redistributor().asleep_reads()) > poll_bound
                ==> result == Err::<u32, GicError>(GicError::WakeTimeout),
    {
        self.dist.init_gic();
        self.redist.init(poll_bound)
    }

    /// Write the distributor group field of interrupt `interrupt`.
    pub fn set_group(&mut self, interrupt: u32, group: bool)
        requires
            old(self).wf(),
            interrupt < GIC_FRAME_IRQS,
        ensures
            dist_step(old(self).distributor(), final(self).distributor(), interrupt),
            final(self).distributor().irq(interrupt) == (IrqSnapshot {
                group: if group { 1u32 } else { 0u32 },
                ..old(self).distributor().irq(interrupt)
            }),
            final(self).redistributor() == old(self).redistributor(),
    {
        self.dist.set_group(interrupt, group);
    }

    /// Enable forwarding of interrupt `interrupt` at the distributor.
    pub fn set_enable(&mut self, interrupt: u32)
        requires
            old(self).wf(),
            interrupt < GIC_FRAME_IRQS,
        ensures
            dist_step(old(self).distributor(), final(self).distributor(), interrupt),
            final(self).distributor().irq(interrupt) == (IrqSnapshot {
                enabled: true,
                ..old(self).distributor().irq(interrupt)
            }),
            final(self).redistributor() == old(self).redistributor(),
    {
        self.dist.set_enable(interrupt);
    }

    /// Disable forwarding of interrupt `interrupt` at the distributor.
    pub fn clear_enable(&mut self, interrupt: u32)
        requires
            old(self).wf(),
            interrupt < GIC_FRAME_IRQS,
        ensures
            dist_step(old(self).distributor(), final(self).distributor(), interrupt),
            final(self).distributor().irq(interrupt) == (IrqSnapshot {
                enabled: false,
                ..old(self).distributor().irq(interrupt)
            }),
            final(self).redistributor() == old(self).redistributor(),
    {
        self.dist.clear_enable(interrupt);
    }

    /// Enable forwarding of interrupt `interrupt` at the redistributor.
    pub fn set_redistributor_enable(&mut self, interrupt: u32)
        requires
            old(self).wf(),
            interrupt < GICR_IRQS,
        ensures
            redist_step(old(self).redistributor(), final(self).redistributor(), interrupt),
            final(self).redistributor().irq(interrupt) == (IrqSnapshot {
                enabled: true,
                ..old(self).redistributor().irq(interrupt)
            }),
            final(self).distributor() == old(self).distributor(),
    {
        self.redist.set_enable(interrupt);
    }

    /// Disable forwarding of interrupt `interrupt` at the redistributor.
    pub fn clear_redistributor_enable(&mut self, interrupt: u32)
        requires
            old(self).wf(),
            interrupt < GICR_IRQS,
        ensures
            redist_step(old(self).redistributor(), final(self).redistributor(), interrupt),
            final(self).redistributor().irq(interrupt) == (IrqSnapshot {
                enabled: false,
                ..old(self).redistributor().irq(interrupt)
            }),
            final(self).distributor() == old(self).distributor(),
    {
        self.redist.clear_enable(interrupt);
    }

    /// Write the distributor priority field of interrupt `interrupt`.
    pub fn set_priority(&mut self, interrupt: u32, priority: u8)
        requires
            old(self).wf(),
            interrupt < GIC_FRAME_IRQS,
        ensures
            dist_step(old(self).distributor(), final(self).distributor(), interrupt),
            final(self).distributor().irq(interrupt) == (IrqSnapshot {
                priority: priority as u32,
                ..old(self).distributor().irq(interrupt)
            }),
            final(self).redistributor() == old(self).redistributor(),
    {
        self.dist.set_priority(interrupt, priority);
    }

    /// Write the redistributor priority field of interrupt `interrupt`.
    pub fn set_redistributor_priority(&mut self, interrupt: u32, priority: u8)
        requires
            old(self).wf(),
            interrupt < GICR_IRQS,
        ensures
            redist_step(old(self).redistributor(), final(self).redistributor(), interrupt),
            final(self).redistributor().irq(interrupt) == (IrqSnapshot {
                priority: priority as u32,
                ..old(self).redistributor().irq(interrupt)
            }),
            final(self).distributor() == old(self).distributor(),
    {
        self.redist.set_priority(interrupt, priority);
    }

    /// Read the redistributor priority field of interrupt `interrupt`.
    pub fn get_redistributor_priority(&self, interrupt: u32) -> (priority: u8)
        requires
            self.wf(),
            interrupt < GICR_IRQS,
        ensures
            priority as u32 == self.redistributor().irq(interrupt).priority,
    {
        self.redist.get_priority(interrupt)
    }

    /// Route interrupt `interrupt` additionally to the given processing
    /// element.  The typed target cannot be out of range, so nothing can
    /// fail.
    pub fn set_target(&mut self, interrupt: u32, target: CpuId)
        requires
            old(self).wf(),
            interrupt < GIC_FRAME_IRQS,
        ensures
            dist_step(old(self).distributor(), final(self).distributor(), interrupt),
            final(self).distributor().irq(interrupt) == (IrqSnapshot {
                targets: old(self).distributor().irq(interrupt).targets | (1u32
                    << target.spec_index()),
                ..old(self).distributor().irq(interrupt)
            }),
            final(self).redistributor() == old(self).redistributor(),
    {
        let bit = target.index();
        let result = self.dist.set_target(interrupt, bit);
        match result {
            Ok(()) => (),
            Err(_) => (),
        }
    }

    /// Write the distributor configuration field of interrupt `interrupt`
    /// from its typed trigger mode.  The encoding always fits the field,
    /// so nothing can fail.
    pub fn set_cfg(&mut self, interrupt: u32, cfg: InterruptType)
        requires
            old(self).wf(),
            interrupt < GIC_FRAME_IRQS,
        ensures
            dist_step(old(self).distributor(), final(self).distributor(), interrupt),
            final(self).distributor().irq(interrupt) == (IrqSnapshot {
                cfg: cfg.spec_encoding(),
                ..old(self).distributor().irq(interrupt)
            }),
            final(self).redistributor() == old(self).redistributor(),
    {
        let bits = cfg.encoding();
        let result = self.dist.set_cfg(interrupt, bits);
        match result {
            Ok(()) => (),
            Err(_) => (),
        }
    }

    /// Mark interrupt `interrupt` pending at the distributor.
    pub fn set_pending(&mut self, interrupt: u32)
        requires
            old(self).wf(),
            interrupt < GIC_FRAME_IRQS,
        ensures
            dist_step(old(self).distributor(), final(self).distributor(), interrupt),
            final(self).distributor().irq(interrupt) == (IrqSnapshot {
                pending: true,
                ..old(self).distributor().irq(interrupt)
            }),
            final(self).redistributor() == old(self).redistributor(),
    {
        self.dist.set_pending(interrupt);
    }

    /// Clear the pending state of interrupt `interrupt` at the
    /// distributor.
    pub fn clear_pending(&mut self, interrupt: u32)
        requires
            old(self).wf(),
            interrupt < GIC_FRAME_IRQS,
        ensures
            dist_step(old(self).distributor(), final(self).distributor(), interrupt),
            final(self).distributor().irq(interrupt) == (IrqSnapshot {
                pending: false,
                ..old(self).distributor().irq(interrupt)
            }),
            final(self).redistributor() == old(self).redistributor(),
    {
        self.dist.clear_pending(interrupt);
    }

    /// Whether interrupt `interrupt` is pending at the distributor.
    pub fn get_pending(&self, interrupt: u32) -> (pending: bool)
        requires
            self.wf(),
            interrupt < GIC_FRAME_IRQS,
        ensures
            pending == self.distributor().irq(interrupt).pending,
    {
        self.dist.get_pending(interrupt)
    }
}

} // verus!
