//! The redistributor controller: the per-processing-element wake handshake
//! and the per-interrupt state of the affinity-routed interrupts (SGIs and
//! PPIs, including the physical timer interrupt).
//!
//! The wake register is a hardware handshake port: after the sleep bit is
//! cleared, the children-asleep status bit stays set until the hardware has
//! finished waking, and must be polled.  `WakerPort` models such a port: it
//! reports children-asleep for a configured number of reads and then
//! reports clear.  `init` performs the handshake with an explicit poll
//! bound and returns a typed timeout error instead of spinning forever.

use vstd::prelude::*;

use crate::common::GicError;
use crate::frame::{reset_irq_snapshot, GicFrame, IrqSnapshot, GIC_FRAME_IRQS};

verus! {

/// Offset of the wake control register inside the redistributor's control
/// frame (not part of the per-interrupt region).
pub const GICR_WAKER_OFFSET: usize = 0x014;

/// Offset of the per-interrupt region inside a redistributor frame.
pub const GICR_SGI_BASE_OFFSET: usize = 0x10000;

/// Interrupt identifiers held by a redistributor's per-interrupt region:
/// the SGIs (0–15) and PPIs (16–31).
pub const GICR_IRQS: u32 = 32;

/// Wake register bit: the processing element is marked asleep.
pub const WAKER_PROCESSOR_SLEEP_BIT: u32 = 0x2;

/// Wake register bit (read-only status): children are still asleep.
pub const WAKER_CHILDREN_ASLEEP_BIT: u32 = 0x4;

/// The wake handshake register: a read-sensitive port.  Writes store the
/// control bits (the read-only children-asleep status bit is not
/// writable); reads report children-asleep until the configured number of
/// asleep reads is used up.
pub struct WakerPort {
    value: u32,
    asleep_reads: u32,
}

impl WakerPort {
    /// The stored control bits never include the read-only status bit.
    pub closed spec fn wf(self) -> bool {
        self.value & WAKER_CHILDREN_ASLEEP_BIT == 0
    }

    /// The stored control bits.
    pub closed spec fn value(self) -> u32 {
        self.value
    }

    /// How many further reads will still report children-asleep.
    pub closed spec fn asleep_reads(self) -> u32 {
        self.asleep_reads
    }

    /// A wake port holding `value`, reporting children-asleep for the next
    /// `asleep_reads` reads.
    pub fn new(value: u32, asleep_reads: u32) -> (port: WakerPort)
        ensures
            port.wf(),
            port.value() == value & !WAKER_CHILDREN_ASLEEP_BIT,
            port.asleep_reads() == asleep_reads,
    {
        proof {
            assert((value & !0x4u32) & 0x4u32 == 0) by (bit_vector);
        }
        WakerPort { value: value & !WAKER_CHILDREN_ASLEEP_BIT, asleep_reads }
    }

    /// Read the register.  The result carries the children-asleep status
    /// bit exactly while asleep reads remain, and each such read consumes
    /// one.
    pub fn read(&mut self) -> (value: u32)
        requires
            old(self).wf(),
        ensures
            final(self).wf(),
            final(self).value() == old(self).value(),
            old(self).asleep_reads() > 0 ==> final(self).asleep_reads() == old(
                self,
            ).asleep_reads() - 1 && value == old(self).value() | WAKER_CHILDREN_ASLEEP_BIT,
            old(self).asleep_reads() == 0 ==> final(self).asleep_reads() == 0 && value == old(
                self,
            ).value(),
    {
        if self.asleep_reads > 0 {
            self.asleep_reads = self.asleep_reads - 1;
            self.value | WAKER_CHILDREN_ASLEEP_BIT
        } else {
            self.value
        }
    }

    /// Write the control bits; the read-only status bit is ignored.
    pub fn write(&mut self, value: u32)
        requires
            old(self).wf(),
        ensures
            final(self).wf(),
            final(self).value() == value & !WAKER_CHILDREN_ASLEEP_BIT,
            final(self).asleep_reads() == old(self).asleep_reads(),
    {
        proof {
            assert((value & !0x4u32) & 0x4u32 == 0) by (bit_vector);
        }
        self.value = value & !WAKER_CHILDREN_ASLEEP_BIT;
    }
}

/// The redistributor: its wake port and its per-interrupt register frame.
pub struct GicRedist {
    waker: WakerPort,
    sgi: GicFrame,
}

/// How many polls the wake handshake takes on a port that will report
/// children-asleep for `pre_asleep` more reads: the initial read of the
/// register consumes one report, each poll consumes one more, and the
/// first poll past the last report sees the status clear.
pub open spec fn wake_polls_needed(pre_asleep: u32) -> int {
    if pre_asleep > 0 {
        pre_asleep as int
    } else {
        1
    }
}

/// A per-interrupt redistributor operation on `i`: the wake port is
/// untouched and no other interrupt's snapshot moves.
pub open spec fn redist_step(pre: GicRedist, post: GicRedist, i: u32) -> bool {
    &&& pre.wf()
    &&& post.wf()
    &&& post.waker_value() == pre.waker_value()
    &&& post.asleep_reads() == pre.asleep_reads()
    &&& forall|j: u32| j < GICR_IRQS && j != i ==> #[trigger] post.irq(j) == pre.irq(j)
}

impl GicRedist {
    /// Both halves of the redistributor model are well-formed.
    pub closed spec fn wf(self) -> bool {
        self.waker.wf() && self.sgi.wf()
    }

    /// The wake register's stored control bits.
    pub closed spec fn waker_value(self) -> u32 {
        self.waker.value()
    }

    /// How many further wake-register reads will report children-asleep.
    pub closed spec fn asleep_reads(self) -> u32 {
        self.waker.asleep_reads()
    }

    /// Snapshot of interrupt `i` as the redistributor holds it.
    pub closed spec fn irq(self, i: u32) -> IrqSnapshot {
        self.sgi.irq(i)
    }

    /// The processing element is no longer marked asleep.
    pub open spec fn awake(self) -> bool {
        self.waker_value() & WAKER_PROCESSOR_SLEEP_BIT == 0
    }

    /// A redistributor over the given wake port, its per-interrupt frame in
    /// reset state.
    pub fn new(waker: WakerPort) -> (redist: GicRedist)
        requires
            waker.wf(),
        ensures
            redist.wf(),
            redist.waker_value() == waker.value(),
            redist.asleep_reads() == waker.asleep_reads(),
            forall|i: u32| i < GICR_IRQS ==> #[trigger] redist.irq(i) == reset_irq_snapshot(),
    {
        GicRedist { waker, sgi: GicFrame::new() }
    }

    /// The wake handshake: clear the sleep bit, write it back, then poll
    /// the children-asleep status until it reads clear, at most
    /// `poll_bound` times.  Returns the number of polls taken, or a
    /// timeout error once the bound is exhausted.  No per-interrupt state
    /// moves.
    pub fn init(&mut self, poll_bound: u32) -> (result: Result<u32, GicError>)
        requires
            old(self).wf(),
        ensures
            final(self).wf(),
            final(self).waker_value() == old(self).waker_value() & !WAKER_PROCESSOR_SLEEP_BIT,
            final(self).awake(),
            forall|j: u32| j < GICR_IRQS ==> #[trigger] final(self).irq(j) == old(self).irq(j),
            wake_polls_needed(old(self).asleep_reads()) <= poll_bound ==> result == Ok::<
                u32,
                GicError,
            >(wake_polls_needed(old(self).asleep_reads()) as u32) && final(self).asleep_reads()
                == 0,
            wake_polls_needed(old(self).asleep_reads()) > poll_bound ==> result == Err::<
                u32,
                GicError,
            >(GicError::WakeTimeout) && final(self).asleep_reads() == wake_polls_needed(
                old(self).asleep_reads(),
            ) - 1 - poll_bound,
    {
        let ghost rem: int = if old(self).asleep_reads() > 0 {
            old(self).asleep_reads() - 1
        } else {
            0
        };

        // Clear the sleep bit and write the register back.
        let mut waker_contents = self.waker.read();
        waker_contents = waker_contents & !WAKER_PROCESSOR_SLEEP_BIT;
        self.waker.write(waker_contents);
        proof {
            let v = old(self).waker_value();
            assert(((v | 0x4u32) & !0x2u32) & !0x4u32 == (v & !0x2u32) & !0x4u32) by (bit_vector);
            assert(v & 0x4u32 == 0 ==> ((v & !0x2u32) & !0x4u32 == v & !0x2u32) && ((v & !0x2u32)
                & 0x2u32 == 0)) by (bit_vector);
        }

        // Poll until the children-asleep status bit reads clear, at most
        // `poll_bound` times.
        let mut polls: u32 = 0;
        while polls < poll_bound
            invariant
                self.wf(),
                self.waker_value() == old(self).waker_value() & !WAKER_PROCESSOR_SLEEP_BIT,
                self.waker_value() & WAKER_PROCESSOR_SLEEP_BIT == 0,
                self.sgi == old(self).sgi,
                rem == wake_polls_needed(old(self).asleep_reads()) - 1,
                polls <= poll_bound,
                polls <= rem,
                self.asleep_reads() == rem - polls,
            decreases poll_bound - polls,
        {
            let ghost v = self.waker_value();
            let status = self.waker.read();
            if status & WAKER_CHILDREN_ASLEEP_BIT == 0 {
                proof {
                    // A read with asleep reports left would have carried the
                    // status bit, so this was the first clear poll.
                    assert(v & 0x4u32 == 0 ==> (v | 0x4u32) & 0x4u32 != 0) by (bit_vector);
                }
                return Ok(polls + 1);
            }
            polls = polls + 1;
        }
        Err(GicError::WakeTimeout)
    }

    /// Write the group field of interrupt `interrupt`.
    pub fn set_group(&mut self, interrupt: u32, group: bool)
        requires
            old(self).wf(),
            interrupt < GICR_IRQS,
        ensures
            redist_step(*old(self), *final(self), interrupt),
            final(self).awake() == old(self).awake(),
            final(self).irq(interrupt) == (IrqSnapshot {
                group: if group { 1u32 } else { 0u32 },
                ..old(self).irq(interrupt)
            }),
    {
        self.sgi.set_group_bit(interrupt, group);
    }

    /// Enable forwarding of interrupt `interrupt`.
    pub fn set_enable(&mut self, interrupt: u32)
        requires
            old(self).wf(),
            interrupt < GICR_IRQS,
        ensures
            redist_step(*old(self), *final(self), interrupt),
            final(self).awake() == old(self).awake(),
            final(self).irq(interrupt) == (IrqSnapshot {
                enabled: true,
                ..old(self).irq(interrupt)
            }),
    {
        self.sgi.set_enable_bit(interrupt);
    }

    /// Disable forwarding of interrupt `interrupt`.
    pub fn clear_enable(&mut self, interrupt: u32)
        requires
            old(self).wf(),
            interrupt < GICR_IRQS,
        ensures
            redist_step(*old(self), *final(self), interrupt),
            final(self).awake() == old(self).awake(),
            final(self).irq(interrupt) == (IrqSnapshot {
                enabled: false,
                ..old(self).irq(interrupt)
            }),
    {
        self.sgi.clear_enable_bit(interrupt);
    }

    /// Whether forwarding of interrupt `interrupt` is enabled.
    pub fn get_enable(&self, interrupt: u32) -> (enabled: bool)
        requires
            self.wf(),
            interrupt < GICR_IRQS,
        ensures
            enabled == self.irq(interrupt).enabled,
    {
        self.sgi.read_enable_bit(interrupt)
    }

    /// Write the priority field of interrupt `interrupt`.
    pub fn set_priority(&mut self, interrupt: u32, priority: u8)
        requires
            old(self).wf(),
            interrupt < GICR_IRQS,
        ensures
            redist_step(*old(self), *final(self), interrupt),
            final(self).awake() == old(self).awake(),
            final(self).irq(interrupt) == (IrqSnapshot {
                priority: priority as u32,
                ..old(self).irq(interrupt)
            }),
    {
        self.sgi.set_priority_field(interrupt, priority);
    }

    /// Read the priority field of interrupt `interrupt`.
    pub fn get_priority(&self, interrupt: u32) -> (priority: u8)
        requires
            self.wf(),
            interrupt < GICR_IRQS,
        ensures
            priority as u32 == self.irq(interrupt).priority,
    {
        self.sgi.read_priority_field(interrupt)
    }

    /// Write the 2-bit configuration field of interrupt `interrupt`.  A
    /// value above 3 does not fit the field: it is rejected with a typed
    /// error and no register is written.
    pub fn set_cfg(&mut self, interrupt: u32, cfg: u32) -> (result: Result<(), GicError>)
        requires
            old(self).wf(),
            interrupt < GICR_IRQS,
        ensures
            cfg <= 3 ==> result == Ok::<(), GicError>(()) && redist_step(
                *old(self),
                *final(self),
                interrupt,
            ) && final(self).irq(interrupt) == (IrqSnapshot {
                cfg: cfg,
                ..old(self).irq(interrupt)
            }),
            cfg > 3 ==> result == Err::<(), GicError>(GicError::ConfigOutOfRange) && *final(self)
                == *old(self),
    {
        if cfg > 3 {
            return Err(GicError::ConfigOutOfRange);
        }
        self.sgi.write_cfg_field(interrupt, cfg);
        Ok(())
    }

    /// Write the raw 2-bit configuration field of interrupt `interrupt`;
    /// the same validated operation as `set_cfg`, kept for callers that
    /// carry the configuration as a plain value.
    pub fn set_interrupt_config(&mut self, interrupt_id: u32, config: u32) -> (result: Result<
        (),
        GicError,
    >)
        requires
            old(self).wf(),
            interrupt_id < GICR_IRQS,
        ensures
            config <= 3 ==> result == Ok::<(), GicError>(()) && redist_step(
                *old(self),
                *final(self),
                interrupt_id,
            ) && final(self).irq(interrupt_id) == (IrqSnapshot {
                cfg: config,
                ..old(self).irq(interrupt_id)
            }),
            config > 3 ==> result == Err::<(), GicError>(GicError::ConfigOutOfRange)
                && *final(self) == *old(self),
    {
        self.set_cfg(interrupt_id, config)
    }

    /// Read the 2-bit configuration field of interrupt `interrupt`.
    pub fn get_cfg(&self, interrupt: u32) -> (cfg: u32)
        requires
            self.wf(),
            interrupt < GICR_IRQS,
        ensures
            cfg == self.irq(interrupt).cfg,
    {
        self.sgi.read_cfg_field(interrupt)
    }

    /// Mark interrupt `interrupt` pending.
    pub fn set_pending(&mut self, interrupt: u32)
        requires
            old(self).wf(),
            interrupt < GICR_IRQS,
        ensures
            redist_step(*old(self), *final(self), interrupt),
            final(self).awake() == old(self).awake(),
            final(self).irq(interrupt) == (IrqSnapshot {
                pending: true,
                ..old(self).irq(interrupt)
            }),
    {
        self.sgi.set_pending_bit(interrupt);
    }

    /// Clear the pending state of interrupt `interrupt` through the
    /// clear-pending port.
    pub fn clear_pending(&mut self, interrupt: u32)
        requires
            old(self).wf(),
            interrupt < GICR_IRQS,
        ensures
            redist_step(*old(self), *final(self), interrupt),
            final(self).awake() == old(self).awake(),
            final(self).irq(interrupt) == (IrqSnapshot {
                pending: false,
                ..old(self).irq(interrupt)
            }),
    {
        self.sgi.clear_pending_bit(interrupt);
    }

    /// Whether interrupt `interrupt` is pending.
    pub fn get_pending(&self, interrupt: u32) -> (pending: bool)
        requires
            self.wf(),
            interrupt < GICR_IRQS,
        ensures
            pending == self.irq(interrupt).pending,
    {
        self.sgi.read_pending_bit(interrupt)
    }

    /// Whether interrupt `interrupt` is pending; the same observation as
    /// `get_pending`, kept for callers that name the redistributor
    /// explicitly.
    pub fn get_redistributor_pending(&self, interrupt: u32) -> (pending: bool)
        requires
            self.wf(),
            interrupt < GICR_IRQS,
        ensures
            pending == self.irq(interrupt).pending,
    {
        self.get_pending(interrupt)
    }
}

} // verus!
