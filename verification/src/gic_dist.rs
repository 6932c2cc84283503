//! The distributor controller: global interrupt configuration shared by all
//! processing elements.
//!
//! `init_gic` performs the architectural global bring-up sequence on the
//! distributor control register — disable security first, then enable the
//! two interrupt groups, then enable affinity routing — in that order,
//! because each step is only meaningful after the previous one.  The
//! per-interrupt operations program one interrupt's fields and are proved to
//! leave every other interrupt alone.  Out-of-range target and
//! configuration values are rejected with a typed error before any register
//! access.

use vstd::prelude::*;

use crate::common::GicError;
use crate::frame::{frame_step, reset_irq_snapshot, GicFrame, IrqSnapshot, GIC_FRAME_IRQS};

verus! {

/// Distributor control register bit: enable Group 0 forwarding.
pub const GICD_CTLR_ENABLE_G0: u32 = 0x01;

/// Distributor control register bit: enable non-secure Group 1 forwarding.
pub const GICD_CTLR_ENABLE_G1NS: u32 = 0x02;

/// Distributor control register bit: enable non-secure affinity routing.
pub const GICD_CTLR_ARE_NS: u32 = 0x20;

/// Distributor control register bit: disable security.
pub const GICD_CTLR_DISABLE_SECURITY: u32 = 0x40;

/// The distributor register frame and its operations.
pub struct GicDistributor {
    frame: GicFrame,
}

/// A per-interrupt distributor operation on `i`: the control register is
/// untouched and no other interrupt's snapshot moves.
pub open spec fn dist_step(pre: GicDistributor, post: GicDistributor, i: u32) -> bool {
    &&& pre.wf()
    &&& post.wf()
    &&& post.ctlr() == pre.ctlr()
    &&& forall|j: u32| j < GIC_FRAME_IRQS && j != i ==> #[trigger] post.irq(j) == pre.irq(j)
}

impl GicDistributor {
    /// The distributor frame has its full complement of registers.
    pub closed spec fn wf(self) -> bool {
        self.frame.wf()
    }

    /// Value of the distributor control register.
    pub closed spec fn ctlr(self) -> u32 {
        self.frame.ctrl()
    }

    /// Snapshot of interrupt `i` as the distributor holds it.
    pub closed spec fn irq(self, i: u32) -> IrqSnapshot {
        self.frame.irq(i)
    }

    /// Whether the security-disable bit is set.
    pub open spec fn security_disabled(self) -> bool {
        self.ctlr() & GICD_CTLR_DISABLE_SECURITY != 0
    }

    /// Whether forwarding of both interrupt groups is enabled.
    pub open spec fn groups_enabled(self) -> bool {
        self.ctlr() & GICD_CTLR_ENABLE_G0 != 0 && self.ctlr() & GICD_CTLR_ENABLE_G1NS != 0
    }

    /// Whether non-secure affinity routing is enabled.
    pub open spec fn affinity_routing_enabled(self) -> bool {
        self.ctlr() & GICD_CTLR_ARE_NS != 0
    }

    /// The distributor is globally configured for non-secure, affinity-routed
    /// operation.
    pub open spec fn globally_configured(self) -> bool {
        self.security_disabled() && self.groups_enabled() && self.affinity_routing_enabled()
    }

    /// A distributor over a frame in its reset state.
    pub fn new() -> (dist: GicDistributor)
        ensures
            dist.wf(),
            dist.ctlr() == 0,
            forall|i: u32| i < GIC_FRAME_IRQS ==> #[trigger] dist.irq(i) == reset_irq_snapshot(),
    {
        GicDistributor { frame: GicFrame::new() }
    }

    /// The architectural global bring-up sequence, in its mandatory order:
    /// disable security, then enable Group 0 and non-secure Group 1
    /// forwarding, then enable affinity routing.  Each step rewrites the
    /// control register; no per-interrupt state moves.
    pub fn init_gic(&mut self)
        requires
            old(self).wf(),
        ensures
            final(self).wf(),
            final(self).ctlr() == old(self).ctlr() | (GICD_CTLR_DISABLE_SECURITY
                | GICD_CTLR_ENABLE_G1NS | GICD_CTLR_ENABLE_G0 | GICD_CTLR_ARE_NS),
            final(self).globally_configured(),
            forall|j: u32|
                j < GIC_FRAME_IRQS ==> #[trigger] final(self).irq(j) == old(self).irq(j),
    {
        let mut ctlr = self.frame.read_ctrl();

        // Disable security: group enables are only meaningful on a
        // security-disabled configuration.
        ctlr = ctlr | GICD_CTLR_DISABLE_SECURITY;
        self.frame.write_ctrl(ctlr);

        // Enable Group 0 and non-secure Group 1 forwarding.
        ctlr = ctlr | (GICD_CTLR_ENABLE_G1NS | GICD_CTLR_ENABLE_G0);
        self.frame.write_ctrl(ctlr);

        // Enable non-secure affinity routing.
        ctlr = ctlr | GICD_CTLR_ARE_NS;
        self.frame.write_ctrl(ctlr);

        proof {
            let c = old(self).ctlr();
            assert(((c | 0x40u32) | (0x02u32 | 0x01u32)) | 0x20u32 == c | (0x40u32 | 0x02u32
                | 0x01u32 | 0x20u32) && (c | (0x40u32 | 0x02u32 | 0x01u32 | 0x20u32)) & 0x40u32
                != 0 && (c | (0x40u32 | 0x02u32 | 0x01u32 | 0x20u32)) & 0x01u32 != 0 && (c | (
            0x40u32 | 0x02u32 | 0x01u32 | 0x20u32)) & 0x02u32 != 0 && (c | (0x40u32 | 0x02u32
                | 0x01u32 | 0x20u32)) & 0x20u32 != 0) by (bit_vector);
        }
    }

    /// Read the distributor control register.
    pub fn get_ctlr(&self) -> (value: u32)
        requires
            self.wf(),
        ensures
            value == self.ctlr(),
    {
        self.frame.read_ctrl()
    }

    /// Write the group field of interrupt `interrupt`.
    pub fn set_group(&mut self, interrupt: u32, group: bool)
        requires
            old(self).wf(),
            interrupt < GIC_FRAME_IRQS,
        ensures
            dist_step(*old(self), *final(self), interrupt),
            final(self).irq(interrupt) == (IrqSnapshot {
                group: if group { 1u32 } else { 0u32 },
                ..old(self).irq(interrupt)
            }),
    {
        self.frame.set_group_bit(interrupt, group);
    }

    /// Enable forwarding of interrupt `interrupt`.
    pub fn set_enable(&mut self, interrupt: u32)
        requires
            old(self).wf(),
            interrupt < GIC_FRAME_IRQS,
        ensures
            dist_step(*old(self), *final(self), interrupt),
            final(self).irq(interrupt) == (IrqSnapshot {
                enabled: true,
                ..old(self).irq(interrupt)
            }),
    {
        self.frame.set_enable_bit(interrupt);
    }

    /// Disable forwarding of interrupt `interrupt`; every other interrupt's
    /// enable bit is untouched.
    pub fn clear_enable(&mut self, interrupt: u32)
        requires
            old(self).wf(),
            interrupt < GIC_FRAME_IRQS,
        ensures
            dist_step(*old(self), *final(self), interrupt),
            final(self).irq(interrupt) == (IrqSnapshot {
                enabled: false,
                ..old(self).irq(interrupt)
            }),
    {
        self.frame.clear_enable_bit(interrupt);
    }

    /// Whether forwarding of interrupt `interrupt` is enabled.
    pub fn get_enable(&self, interrupt: u32) -> (enabled: bool)
        requires
            self.wf(),
            interrupt < GIC_FRAME_IRQS,
        ensures
            enabled == self.irq(interrupt).enabled,
    {
        self.frame.read_enable_bit(interrupt)
    }

    /// Write the priority field of interrupt `interrupt`.
    pub fn set_priority(&mut self, interrupt: u32, priority: u8)
        requires
            old(self).wf(),
            interrupt < GIC_FRAME_IRQS,
        ensures
            dist_step(*old(self), *final(self), interrupt),
            final(self).irq(interrupt) == (IrqSnapshot {
                priority: priority as u32,
                ..old(self).irq(interrupt)
            }),
    {
        self.frame.set_priority_field(interrupt, priority);
    }

    /// Read the priority field of interrupt `interrupt`.
    pub fn get_priority(&self, interrupt: u32) -> (priority: u8)
        requires
            self.wf(),
            interrupt < GIC_FRAME_IRQS,
        ensures
            priority as u32 == self.irq(interrupt).priority,
    {
        self.frame.read_priority_field(interrupt)
    }

    /// Route interrupt `interrupt` additionally to processing element
    /// `cpu`.  Targeting is additive: a second call with another target
    /// routes the interrupt to both.  A target above 7 is a contract
    /// violation: it is rejected with a typed error and no register is
    /// written.
    pub fn set_target(&mut self, interrupt: u32, cpu: u32) -> (result: Result<(), GicError>)
        requires
            old(self).wf(),
            interrupt < GIC_FRAME_IRQS,
        ensures
            cpu <= 7 ==> result == Ok::<(), GicError>(()) && dist_step(
                *old(self),
                *final(self),
                interrupt,
            ) && final(self).irq(interrupt) == (IrqSnapshot {
                targets: old(self).irq(interrupt).targets | (1u32 << cpu),
                ..old(self).irq(interrupt)
            }),
            cpu > 7 ==> result == Err::<(), GicError>(GicError::TargetOutOfRange) && *final(self)
                == *old(self),
    {
        if cpu > 7 {
            return Err(GicError::TargetOutOfRange);
        }
        self.frame.or_target_bit(interrupt, cpu);
        Ok(())
    }

    /// Read the target field of interrupt `interrupt`.
    pub fn get_target(&self, interrupt: u32) -> (targets: u32)
        requires
            self.wf(),
            interrupt < GIC_FRAME_IRQS,
        ensures
            targets == self.irq(interrupt).targets,
    {
        self.frame.read_target_field(interrupt)
    }

    /// Write the 2-bit configuration field of interrupt `interrupt`.  A
    /// value above 3 does not fit the field: it is rejected with a typed
    /// error and no register is written.
    pub fn set_cfg(&mut self, interrupt: u32, cfg: u32) -> (result: Result<(), GicError>)
        requires
            old(self).wf(),
            interrupt < GIC_FRAME_IRQS,
        ensures
            cfg <= 3 ==> result == Ok::<(), GicError>(()) && dist_step(
                *old(self),
                *final(self),
                interrupt,
            ) && final(self).irq(interrupt) == (IrqSnapshot {
                cfg: cfg,
                ..old(self).irq(interrupt)
            }),
            cfg > 3 ==> result == Err::<(), GicError>(GicError::ConfigOutOfRange) && *final(self)
                == *old(self),
    {
        if cfg > 3 {
            return Err(GicError::ConfigOutOfRange);
        }
        self.frame.write_cfg_field(interrupt, cfg);
        Ok(())
    }

    /// Read the 2-bit configuration field of interrupt `interrupt`.
    pub fn get_cfg(&self, interrupt: u32) -> (cfg: u32)
        requires
            self.wf(),
            interrupt < GIC_FRAME_IRQS,
        ensures
            cfg == self.irq(interrupt).cfg,
    {
        self.frame.read_cfg_field(interrupt)
    }

    /// Mark interrupt `interrupt` pending through the set-pending window.
    pub fn set_pending(&mut self, interrupt: u32)
        requires
            old(self).wf(),
            interrupt < GIC_FRAME_IRQS,
        ensures
            dist_step(*old(self), *final(self), interrupt),
            final(self).irq(interrupt) == (IrqSnapshot {
                pending: true,
                ..old(self).irq(interrupt)
            }),
    {
        self.frame.set_pending_bit(interrupt);
    }

    /// Clear the pending state of interrupt `interrupt` through the
    /// clear-pending port.
    pub fn clear_pending(&mut self, interrupt: u32)
        requires
            old(self).wf(),
            interrupt < GIC_FRAME_IRQS,
        ensures
            dist_step(*old(self), *final(self), interrupt),
            final(self).irq(interrupt) == (IrqSnapshot {
                pending: false,
                ..old(self).irq(interrupt)
            }),
    {
        self.frame.clear_pending_bit(interrupt);
    }

    /// Whether interrupt `interrupt` is pending.
    pub fn get_pending(&self, interrupt: u32) -> (pending: bool)
        requires
            self.wf(),
            interrupt < GIC_FRAME_IRQS,
        ensures
            pending == self.irq(interrupt).pending,
    {
        self.frame.read_pending_bit(interrupt)
    }

    /// Read the group field of interrupt `interrupt`.
    pub fn get_group(&self, interrupt: u32) -> (group: u32)
        requires
            self.wf(),
            interrupt < GIC_FRAME_IRQS,
        ensures
            group == self.irq(interrupt).group,
    {
        self.frame.read_group_bit(interrupt)
    }
}

/// Law: `set_enable` followed by `clear_enable` on one interrupt leaves its
/// enable bit at 0, and no other interrupt's state has moved across the two
/// operations.  The states are related exactly as the two operations'
/// contracts relate them.
pub proof fn lemma_dist_enable_round_trip(
    s0: GicDistributor,
    s1: GicDistributor,
    s2: GicDistributor,
    i: u32,
)
    requires
        dist_step(s0, s1, i),
        s1.irq(i) == (IrqSnapshot { enabled: true, ..s0.irq(i) }),
        dist_step(s1, s2, i),
        s2.irq(i) == (IrqSnapshot { enabled: false, ..s1.irq(i) }),
    ensures
        !s2.irq(i).enabled,
        forall|j: u32| j < GIC_FRAME_IRQS && j != i ==> #[trigger] s2.irq(j) == s0.irq(j),
{
    assert forall|j: u32| j < GIC_FRAME_IRQS && j != i implies #[trigger] s2.irq(j) == s0.irq(
        j,
    ) by {
        assert(s2.irq(j) == s1.irq(j));
        assert(s1.irq(j) == s0.irq(j));
    }
}

/// Law: an enable operation on an unrelated interrupt, interleaved between
/// setting and clearing interrupt `i`'s enable bit, is a no-op on that
/// unrelated interrupt: it stays enabled with the rest of its state as it
/// was at the start, while `i` ends up disabled.
pub proof fn lemma_dist_enable_interleaving_no_op(
    s0: GicDistributor,
    s1: GicDistributor,
    s2: GicDistributor,
    s3: GicDistributor,
    i: u32,
    other: u32,
)
    requires
        i != other,
        i < GIC_FRAME_IRQS,
        other < GIC_FRAME_IRQS,
        dist_step(s0, s1, i),
        s1.irq(i) == (IrqSnapshot { enabled: true, ..s0.irq(i) }),
        dist_step(s1, s2, other),
        s2.irq(other) == (IrqSnapshot { enabled: true, ..s1.irq(other) }),
        dist_step(s2, s3, i),
        s3.irq(i) == (IrqSnapshot { enabled: false, ..s2.irq(i) }),
    ensures
        !s3.irq(i).enabled,
        s3.irq(other).enabled,
        s3.irq(other) == (IrqSnapshot { enabled: true, ..s0.irq(other) }),
{
    assert(s3.irq(other) == s2.irq(other));
    assert(s1.irq(other) == s0.irq(other));
}

/// Law: `set_pending` makes `get_pending` observe true, `clear_pending`
/// afterwards makes it observe false, and no other interrupt's state has
/// moved across the two operations.
pub proof fn lemma_dist_pending_round_trip(
    s0: GicDistributor,
    s1: GicDistributor,
    s2: GicDistributor,
    i: u32,
)
    requires
        dist_step(s0, s1, i),
        s1.irq(i) == (IrqSnapshot { pending: true, ..s0.irq(i) }),
        dist_step(s1, s2, i),
        s2.irq(i) == (IrqSnapshot { pending: false, ..s1.irq(i) }),
    ensures
        s1.irq(i).pending,
        !s2.irq(i).pending,
        forall|j: u32| j < GIC_FRAME_IRQS && j != i ==> #[trigger] s2.irq(j) == s0.irq(j),
{
    assert forall|j: u32| j < GIC_FRAME_IRQS && j != i implies #[trigger] s2.irq(j) == s0.irq(
        j,
    ) by {
        assert(s2.irq(j) == s1.irq(j));
        assert(s1.irq(j) == s0.irq(j));
    }
}

} // verus!
