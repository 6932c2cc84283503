//! The register frame shared by the distributor and the redistributor's
//! per-interrupt region: a memory-backed model of one GIC register file.
//!
//! The frame is a `RegBank` whose cells hold, at the architectural offsets,
//! the control register and the per-interrupt windows (group, enable,
//! pending, priority, target, configuration).  The set-enable and
//! set-pending windows hold the canonical interrupt state; the clear-enable
//! and clear-pending windows are write-one-to-clear ports that the frame
//! folds onto the state window one `CLEAR_PORT_DELTA` below, so a write of a
//! single interrupt's bit to a clear port clears exactly that interrupt's
//! state bit.
//!
//! Every operation's contract is stated over per-interrupt snapshots
//! (`IrqSnapshot`) and proves framing: the one addressed field changes, and
//! every other interrupt's whole snapshot is untouched.

use vstd::prelude::*;

use crate::bank::{
    RegBank, entries_per_register, field_cell, field_mask, field_of, field_shift,
    lemma_field_geometry, lemma_fields_distinct, lemma_mask_values, lemma_value_fits_in_field,
    spec_read_field, valid_field_width,
};

verus! {

/// Number of register cells in one frame: the configuration window is the
/// last one and ends at `0xC00 + 0x40`.
pub const GIC_FRAME_CELLS: usize = 0xC40;

/// Interrupt identifiers the frame can address.
pub const GIC_FRAME_IRQS: u32 = 1020;

/// Control register cell.
pub const CTLR_OFFSET: usize = 0x000;

/// Interrupt group window, 1-bit fields.
pub const IGROUPR_OFFSET: usize = 0x080;

/// Set-enable window, 1-bit fields; holds the canonical enable state.
pub const ISENABLER_OFFSET: usize = 0x100;

/// Clear-enable port, write-one-to-clear onto the set-enable window.
pub const ICENABLER_OFFSET: usize = 0x180;

/// Set-pending window, 1-bit fields; holds the canonical pending state.
pub const ISPENDR_OFFSET: usize = 0x200;

/// Clear-pending port, write-one-to-clear onto the set-pending window.
pub const ICPENDR_OFFSET: usize = 0x280;

/// Priority window, 8-bit fields.
pub const IPRIORITYR_OFFSET: usize = 0x400;

/// Legacy target window, 8-bit fields, one bit per processing element.
pub const ITARGETSR_OFFSET: usize = 0x800;

/// Interrupt configuration window, 2-bit fields.
pub const ICFGR_OFFSET: usize = 0xC00;

/// Distance between a write-one-to-clear port window and the state window
/// it aliases.
pub const CLEAR_PORT_DELTA: usize = 0x080;

/// Everything one register frame knows about a single interrupt.
pub struct IrqSnapshot {
    /// Group field (1 bit): 0 selects Group 0, 1 selects Group 1.
    pub group: u32,
    /// Whether forwarding of the interrupt is enabled.
    pub enabled: bool,
    /// Whether the interrupt is pending.
    pub pending: bool,
    /// Priority field (8 bits): 0 is the highest priority.
    pub priority: u32,
    /// Target field (8 bits): one bit per targeted processing element.
    pub targets: u32,
    /// Configuration field (2 bits): bit 1 set means edge-triggered.
    pub cfg: u32,
}

/// The snapshot of an interrupt in a frame that has just come out of reset.
pub open spec fn reset_irq_snapshot() -> IrqSnapshot {
    IrqSnapshot { group: 0, enabled: false, pending: false, priority: 0, targets: 0, cfg: 0 }
}

/// One GIC register frame backed by memory.
pub struct GicFrame {
    bank: RegBank,
}

impl GicFrame {
    /// The frame has its full complement of register cells.
    pub closed spec fn wf(self) -> bool {
        self.bank@.len() == GIC_FRAME_CELLS
    }

    /// Value of the control register.
    pub closed spec fn ctrl(self) -> u32 {
        self.bank@[CTLR_OFFSET as int]
    }

    /// Group field of interrupt `i`.
    pub closed spec fn group_bit(self, i: u32) -> u32 {
        spec_read_field(self.bank@, IGROUPR_OFFSET as int, 1, i)
    }

    /// Whether interrupt `i` is enabled.
    pub closed spec fn enabled(self, i: u32) -> bool {
        spec_read_field(self.bank@, ISENABLER_OFFSET as int, 1, i) == 1
    }

    /// Whether interrupt `i` is pending.
    pub closed spec fn pending(self, i: u32) -> bool {
        spec_read_field(self.bank@, ISPENDR_OFFSET as int, 1, i) == 1
    }

    /// Priority field of interrupt `i`.
    pub closed spec fn priority(self, i: u32) -> u32 {
        spec_read_field(self.bank@, IPRIORITYR_OFFSET as int, 8, i)
    }

    /// Target field of interrupt `i`.
    pub closed spec fn targets(self, i: u32) -> u32 {
        spec_read_field(self.bank@, ITARGETSR_OFFSET as int, 8, i)
    }

    /// Configuration field of interrupt `i`.
    pub closed spec fn cfg(self, i: u32) -> u32 {
        spec_read_field(self.bank@, ICFGR_OFFSET as int, 2, i)
    }

    /// The whole snapshot of interrupt `i`.
    pub open spec fn irq(self, i: u32) -> IrqSnapshot {
        IrqSnapshot {
            group: self.group_bit(i),
            enabled: self.enabled(i),
            pending: self.pending(i),
            priority: self.priority(i),
            targets: self.targets(i),
            cfg: self.cfg(i),
        }
    }
}

/// Every interrupt other than `i` has the same snapshot in `post` as in
/// `pre`.
pub open spec fn same_other_irqs(pre: GicFrame, post: GicFrame, i: u32) -> bool {
    forall|j: u32| j < GIC_FRAME_IRQS && j != i ==> #[trigger] post.irq(j) == pre.irq(j)
}

/// A per-interrupt operation on `i`: well-formedness and the control
/// register are preserved, and no other interrupt's snapshot moves.
pub open spec fn frame_step(pre: GicFrame, post: GicFrame, i: u32) -> bool {
    &&& pre.wf()
    &&& post.wf()
    &&& post.ctrl() == pre.ctrl()
    &&& same_other_irqs(pre, post, i)
}

/// Cells addressed by a window at `base` for indices below 1024 stay within
/// `32 * width` cells of the window base.
proof fn lemma_cell_range(base: int, width: u32, index: u32)
    requires
        valid_field_width(width),
        index < 1024,
    ensures
        base <= field_cell(base, width, index) < base + 32 * width as int,
{
    lemma_field_geometry(width, index);
    let epr = entries_per_register(width);
    assert(index as int / epr < 32 * width as int) by {
        if width == 1 {
            assert(index as int / 32 < 32);
        } else if width == 2 {
            assert(index as int / 16 < 64);
        } else if width == 4 {
            assert(index as int / 8 < 128);
        } else if width == 8 {
            assert(index as int / 4 < 256);
        } else {
            assert(index as int / 2 < 512);
        }
    }
}

/// If two well-formed frames differ only inside the cell range `[lo, hi)`,
/// every per-interrupt window disjoint from that range — and the control
/// register, if it lies outside — reads the same in both.
proof fn lemma_fields_unchanged_outside(pre: GicFrame, post: GicFrame, lo: int, hi: int)
    requires
        pre.wf(),
        post.wf(),
        forall|c: int|
            0 <= c < GIC_FRAME_CELLS && !(lo <= c < hi) ==> post.bank@[c] == pre.bank@[c],
    ensures
        (hi <= IGROUPR_OFFSET as int || lo >= IGROUPR_OFFSET + 32) ==> forall|j: u32|
            j < 1024 ==> #[trigger] post.group_bit(j) == pre.group_bit(j),
        (hi <= ISENABLER_OFFSET as int || lo >= ISENABLER_OFFSET + 32) ==> forall|j: u32|
            j < 1024 ==> #[trigger] post.enabled(j) == pre.enabled(j),
        (hi <= ISPENDR_OFFSET as int || lo >= ISPENDR_OFFSET + 32) ==> forall|j: u32|
            j < 1024 ==> #[trigger] post.pending(j) == pre.pending(j),
        (hi <= IPRIORITYR_OFFSET as int || lo >= IPRIORITYR_OFFSET + 256) ==> forall|j: u32|
            j < 1024 ==> #[trigger] post.priority(j) == pre.priority(j),
        (hi <= ITARGETSR_OFFSET as int || lo >= ITARGETSR_OFFSET + 256) ==> forall|j: u32|
            j < 1024 ==> #[trigger] post.targets(j) == pre.targets(j),
        (hi <= ICFGR_OFFSET as int || lo >= ICFGR_OFFSET + 64) ==> forall|j: u32|
            j < 1024 ==> #[trigger] post.cfg(j) == pre.cfg(j),
        (hi <= CTLR_OFFSET as int || lo >= CTLR_OFFSET + 1) ==> post.ctrl() == pre.ctrl(),
{
    if hi <= IGROUPR_OFFSET as int || lo >= IGROUPR_OFFSET + 32 {
        assert forall|j: u32| j < 1024 implies #[trigger] post.group_bit(j) == pre.group_bit(j) by {
            lemma_cell_range(IGROUPR_OFFSET as int, 1, j);
        }
    }
    if hi <= ISENABLER_OFFSET as int || lo >= ISENABLER_OFFSET + 32 {
        assert forall|j: u32| j < 1024 implies #[trigger] post.enabled(j) == pre.enabled(j) by {
            lemma_cell_range(ISENABLER_OFFSET as int, 1, j);
        }
    }
    if hi <= ISPENDR_OFFSET as int || lo >= ISPENDR_OFFSET + 32 {
        assert forall|j: u32| j < 1024 implies #[trigger] post.pending(j) == pre.pending(j) by {
            lemma_cell_range(ISPENDR_OFFSET as int, 1, j);
        }
    }
    if hi <= IPRIORITYR_OFFSET as int || lo >= IPRIORITYR_OFFSET + 256 {
        assert forall|j: u32| j < 1024 implies #[trigger] post.priority(j) == pre.priority(j) by {
            lemma_cell_range(IPRIORITYR_OFFSET as int, 8, j);
        }
    }
    if hi <= ITARGETSR_OFFSET as int || lo >= ITARGETSR_OFFSET + 256 {
        assert forall|j: u32| j < 1024 implies #[trigger] post.targets(j) == pre.targets(j) by {
            lemma_cell_range(ITARGETSR_OFFSET as int, 8, j);
        }
    }
    if hi <= ICFGR_OFFSET as int || lo >= ICFGR_OFFSET + 64 {
        assert forall|j: u32| j < 1024 implies #[trigger] post.cfg(j) == pre.cfg(j) by {
            lemma_cell_range(ICFGR_OFFSET as int, 2, j);
        }
    }
}

/// Setting one target bit by a whole-register OR changes exactly that bit
/// of the addressed 8-bit target field.
proof fn lemma_or_target_sets_field(word: u32, shift: u32, cpu: u32)
    by (bit_vector)
    requires
        shift <= 24,
        shift % 8 == 0,
        cpu <= 7,
    ensures
        field_of(word | (1u32 << (shift + cpu)), 8, shift) == field_of(word, 8, shift) | (1u32
            << cpu),
{
}

/// Setting one target bit leaves the other 8-bit target fields of the same
/// register unchanged.
proof fn lemma_or_target_frames_others(word: u32, shift: u32, other: u32, cpu: u32)
    by (bit_vector)
    requires
        shift <= 24,
        other <= 24,
        shift % 8 == 0,
        other % 8 == 0,
        shift != other,
        cpu <= 7,
    ensures
        field_of(word | (1u32 << (shift + cpu)), 8, other) == field_of(word, 8, other),
{
}

/// A field of an all-zero register reads zero.
proof fn lemma_field_of_zero(width: u32, shift: u32)
    by (bit_vector)
    requires
        width == 1 || width == 2 || width == 4 || width == 8 || width == 16,
    ensures
        field_of(0u32, width, shift) == 0,
{
}

impl GicFrame {
    /// A frame in its reset state: every register reads zero.
    pub fn new() -> (frame: GicFrame)
        ensures
            frame.wf(),
            frame.ctrl() == 0,
            forall|i: u32| i < GIC_FRAME_IRQS ==> #[trigger] frame.irq(i) == reset_irq_snapshot(),
    {
        let frame = GicFrame { bank: RegBank::new(GIC_FRAME_CELLS) };
        proof {
            assert forall|i: u32| i < GIC_FRAME_IRQS implies #[trigger] frame.irq(i)
                == reset_irq_snapshot() by {
                lemma_cell_range(IGROUPR_OFFSET as int, 1, i);
                lemma_cell_range(ISENABLER_OFFSET as int, 1, i);
                lemma_cell_range(ISPENDR_OFFSET as int, 1, i);
                lemma_cell_range(IPRIORITYR_OFFSET as int, 8, i);
                lemma_cell_range(ITARGETSR_OFFSET as int, 8, i);
                lemma_cell_range(ICFGR_OFFSET as int, 2, i);
                lemma_field_of_zero(1, field_shift(1, i));
                lemma_field_of_zero(2, field_shift(2, i));
                lemma_field_of_zero(8, field_shift(8, i));
            }
        }
        frame
    }

    /// Read the control register.
    pub fn read_ctrl(&self) -> (value: u32)
        requires
            self.wf(),
        ensures
            value == self.ctrl(),
    {
        self.bank.read32(CTLR_OFFSET)
    }

    /// Overwrite the control register; no per-interrupt state moves.
    pub fn write_ctrl(&mut self, value: u32)
        requires
            old(self).wf(),
        ensures
            final(self).wf(),
            final(self).ctrl() == value,
            same_other_irqs(*old(self), *final(self), GIC_FRAME_IRQS),
            forall|j: u32|
                j < GIC_FRAME_IRQS ==> #[trigger] final(self).irq(j) == old(self).irq(j),
    {
        self.bank.write32(CTLR_OFFSET, value);
        proof {
            lemma_fields_unchanged_outside(*old(self), *self, CTLR_OFFSET as int, CTLR_OFFSET + 1);
        }
    }

    /// Write the group field of interrupt `i`.
    pub fn set_group_bit(&mut self, i: u32, group: bool)
        requires
            old(self).wf(),
            i < GIC_FRAME_IRQS,
        ensures
            frame_step(*old(self), *final(self), i),
            final(self).irq(i) == (IrqSnapshot { group: if group { 1u32 } else { 0u32 }, ..old(self).irq(i) }),
    {
        proof {
            lemma_cell_range(IGROUPR_OFFSET as int, 1, i);
        }
        let value: u32 = if group {
            1
        } else {
            0
        };
        self.bank.write_field(IGROUPR_OFFSET, 1, i, value);
        proof {
            let cell = field_cell(IGROUPR_OFFSET as int, 1, i);
            lemma_fields_unchanged_outside(*old(self), *self, cell, cell + 1);
            lemma_mask_values();
            lemma_value_fits_in_field(1, value);
            assert forall|j: u32| j < GIC_FRAME_IRQS && j != i implies #[trigger] self.irq(j)
                == old(self).irq(j) by {
                lemma_cell_range(IGROUPR_OFFSET as int, 1, j);
            }
        }
    }

    /// Read the group field of interrupt `i`.
    pub fn read_group_bit(&self, i: u32) -> (group: u32)
        requires
            self.wf(),
            i < GIC_FRAME_IRQS,
        ensures
            group == self.group_bit(i),
    {
        proof {
            lemma_cell_range(IGROUPR_OFFSET as int, 1, i);
        }
        self.bank.read_field(IGROUPR_OFFSET, 1, i)
    }

    /// Set the enable bit of interrupt `i` through the set-enable window.
    pub fn set_enable_bit(&mut self, i: u32)
        requires
            old(self).wf(),
            i < GIC_FRAME_IRQS,
        ensures
            frame_step(*old(self), *final(self), i),
            final(self).irq(i) == (IrqSnapshot { enabled: true, ..old(self).irq(i) }),
    {
        proof {
            lemma_cell_range(ISENABLER_OFFSET as int, 1, i);
        }
        self.bank.write_field(ISENABLER_OFFSET, 1, i, 1);
        proof {
            let cell = field_cell(ISENABLER_OFFSET as int, 1, i);
            lemma_fields_unchanged_outside(*old(self), *self, cell, cell + 1);
            lemma_mask_values();
            lemma_value_fits_in_field(1, 1);
            assert forall|j: u32| j < GIC_FRAME_IRQS && j != i implies #[trigger] self.irq(j)
                == old(self).irq(j) by {
                lemma_cell_range(ISENABLER_OFFSET as int, 1, j);
            }
        }
    }

    /// Clear the enable bit of interrupt `i`.  The clear-enable port is
    /// write-one-to-clear: the frame folds the write onto the enable state
    /// window `CLEAR_PORT_DELTA` cells below the port, clearing exactly the
    /// addressed bit.
    pub fn clear_enable_bit(&mut self, i: u32)
        requires
            old(self).wf(),
            i < GIC_FRAME_IRQS,
        ensures
            frame_step(*old(self), *final(self), i),
            final(self).irq(i) == (IrqSnapshot { enabled: false, ..old(self).irq(i) }),
    {
        proof {
            lemma_cell_range(ISENABLER_OFFSET as int, 1, i);
        }
        let state_window: usize = ICENABLER_OFFSET - CLEAR_PORT_DELTA;
        self.bank.write_field(state_window, 1, i, 0);
        proof {
            let cell = field_cell(ISENABLER_OFFSET as int, 1, i);
            lemma_fields_unchanged_outside(*old(self), *self, cell, cell + 1);
            lemma_mask_values();
            lemma_value_fits_in_field(1, 0);
            assert forall|j: u32| j < GIC_FRAME_IRQS && j != i implies #[trigger] self.irq(j)
                == old(self).irq(j) by {
                lemma_cell_range(ISENABLER_OFFSET as int, 1, j);
            }
        }
    }

    /// Read the enable bit of interrupt `i`.
    pub fn read_enable_bit(&self, i: u32) -> (enabled: bool)
        requires
            self.wf(),
            i < GIC_FRAME_IRQS,
        ensures
            enabled == self.enabled(i),
    {
        proof {
            lemma_cell_range(ISENABLER_OFFSET as int, 1, i);
        }
        self.bank.read_field(ISENABLER_OFFSET, 1, i) == 1
    }

    /// Set the pending bit of interrupt `i` through the set-pending window.
    pub fn set_pending_bit(&mut self, i: u32)
        requires
            old(self).wf(),
            i < GIC_FRAME_IRQS,
        ensures
            frame_step(*old(self), *final(self), i),
            final(self).irq(i) == (IrqSnapshot { pending: true, ..old(self).irq(i) }),
    {
        proof {
            lemma_cell_range(ISPENDR_OFFSET as int, 1, i);
        }
        self.bank.write_field(ISPENDR_OFFSET, 1, i, 1);
        proof {
            let cell = field_cell(ISPENDR_OFFSET as int, 1, i);
            lemma_fields_unchanged_outside(*old(self), *self, cell, cell + 1);
            lemma_mask_values();
            lemma_value_fits_in_field(1, 1);
            assert forall|j: u32| j < GIC_FRAME_IRQS && j != i implies #[trigger] self.irq(j)
                == old(self).irq(j) by {
                lemma_cell_range(ISPENDR_OFFSET as int, 1, j);
            }
        }
    }

    /// Clear the pending bit of interrupt `i`.  The clear-pending port is
    /// write-one-to-clear onto the pending state window, like the
    /// clear-enable port.
    pub fn clear_pending_bit(&mut self, i: u32)
        requires
            old(self).wf(),
            i < GIC_FRAME_IRQS,
        ensures
            frame_step(*old(self), *final(self), i),
            final(self).irq(i) == (IrqSnapshot { pending: false, ..old(self).irq(i) }),
    {
        proof {
            lemma_cell_range(ISPENDR_OFFSET as int, 1, i);
        }
        let state_window: usize = ICPENDR_OFFSET - CLEAR_PORT_DELTA;
        self.bank.write_field(state_window, 1, i, 0);
        proof {
            let cell = field_cell(ISPENDR_OFFSET as int, 1, i);
            lemma_fields_unchanged_outside(*old(self), *self, cell, cell + 1);
            lemma_mask_values();
            lemma_value_fits_in_field(1, 0);
            assert forall|j: u32| j < GIC_FRAME_IRQS && j != i implies #[trigger] self.irq(j)
                == old(self).irq(j) by {
                lemma_cell_range(ISPENDR_OFFSET as int, 1, j);
            }
        }
    }

    /// Read the pending bit of interrupt `i`.
    pub fn read_pending_bit(&self, i: u32) -> (pending: bool)
        requires
            self.wf(),
            i < GIC_FRAME_IRQS,
        ensures
            pending == self.pending(i),
    {
        proof {
            lemma_cell_range(ISPENDR_OFFSET as int, 1, i);
        }
        self.bank.read_field(ISPENDR_OFFSET, 1, i) == 1
    }

    /// Write the priority field of interrupt `i`.
    pub fn set_priority_field(&mut self, i: u32, priority: u8)
        requires
            old(self).wf(),
            i < GIC_FRAME_IRQS,
        ensures
            frame_step(*old(self), *final(self), i),
            final(self).irq(i) == (IrqSnapshot { priority: priority as u32, ..old(self).irq(i) }),
    {
        proof {
            lemma_cell_range(IPRIORITYR_OFFSET as int, 8, i);
        }
        self.bank.write_field(IPRIORITYR_OFFSET, 8, i, priority as u32);
        proof {
            let cell = field_cell(IPRIORITYR_OFFSET as int, 8, i);
            lemma_fields_unchanged_outside(*old(self), *self, cell, cell + 1);
            lemma_mask_values();
            lemma_value_fits_in_field(8, priority as u32);
            assert forall|j: u32| j < GIC_FRAME_IRQS && j != i implies #[trigger] self.irq(j)
                == old(self).irq(j) by {
                lemma_cell_range(IPRIORITYR_OFFSET as int, 8, j);
            }
        }
    }

    /// Read the priority field of interrupt `i`.
    pub fn read_priority_field(&self, i: u32) -> (priority: u8)
        requires
            self.wf(),
            i < GIC_FRAME_IRQS,
        ensures
            priority as u32 == self.priority(i),
    {
        proof {
            lemma_cell_range(IPRIORITYR_OFFSET as int, 8, i);
            lemma_mask_values();
        }
        let value = self.bank.read_field(IPRIORITYR_OFFSET, 8, i);
        value as u8
    }

    /// Write the configuration field of interrupt `i`; the value must fit
    /// the 2-bit field.
    pub fn write_cfg_field(&mut self, i: u32, bits: u32)
        requires
            old(self).wf(),
            i < GIC_FRAME_IRQS,
            bits <= 3,
        ensures
            frame_step(*old(self), *final(self), i),
            final(self).irq(i) == (IrqSnapshot { cfg: bits, ..old(self).irq(i) }),
    {
        proof {
            lemma_cell_range(ICFGR_OFFSET as int, 2, i);
        }
        self.bank.write_field(ICFGR_OFFSET, 2, i, bits);
        proof {
            let cell = field_cell(ICFGR_OFFSET as int, 2, i);
            lemma_fields_unchanged_outside(*old(self), *self, cell, cell + 1);
            lemma_mask_values();
            lemma_value_fits_in_field(2, bits);
            assert forall|j: u32| j < GIC_FRAME_IRQS && j != i implies #[trigger] self.irq(j)
                == old(self).irq(j) by {
                lemma_cell_range(ICFGR_OFFSET as int, 2, j);
            }
        }
    }

    /// Read the configuration field of interrupt `i`.
    pub fn read_cfg_field(&self, i: u32) -> (bits: u32)
        requires
            self.wf(),
            i < GIC_FRAME_IRQS,
        ensures
            bits == self.cfg(i),
    {
        proof {
            lemma_cell_range(ICFGR_OFFSET as int, 2, i);
        }
        self.bank.read_field(ICFGR_OFFSET, 2, i)
    }

    /// OR one processing element's bit into the target field of interrupt
    /// `i`.  Targeting is additive: naming a second target routes the
    /// interrupt to both.
    pub fn or_target_bit(&mut self, i: u32, cpu: u32)
        requires
            old(self).wf(),
            i < GIC_FRAME_IRQS,
            cpu <= 7,
        ensures
            frame_step(*old(self), *final(self), i),
            final(self).irq(i) == (IrqSnapshot {
                targets: old(self).targets(i) | (1u32 << cpu),
                ..old(self).irq(i)
            }),
    {
        proof {
            lemma_cell_range(ITARGETSR_OFFSET as int, 8, i);
            lemma_field_geometry(8, i);
        }
        let epr: u32 = 4;
        let cell: usize = ITARGETSR_OFFSET + (i / epr) as usize;
        let shift: u32 = (i % epr) * 8;
        let word = self.bank.read32(cell);
        let updated = word | (1u32 << (shift + cpu));
        self.bank.write32(cell, updated);
        proof {
            assert(cell as int == field_cell(ITARGETSR_OFFSET as int, 8, i));
            assert(shift == field_shift(8, i));
            lemma_fields_unchanged_outside(*old(self), *self, cell as int, cell as int + 1);
            lemma_or_target_sets_field(word, shift, cpu);
            assert forall|j: u32| j < GIC_FRAME_IRQS && j != i implies #[trigger] self.irq(j)
                == old(self).irq(j) by {
                lemma_cell_range(ITARGETSR_OFFSET as int, 8, j);
                if field_cell(ITARGETSR_OFFSET as int, 8, j) == cell as int {
                    lemma_fields_distinct(ITARGETSR_OFFSET as int, 8, i, j);
                    lemma_field_geometry(8, j);
                    lemma_or_target_frames_others(word, shift, field_shift(8, j), cpu);
                }
            }
        }
    }

    /// Read the target field of interrupt `i`.
    pub fn read_target_field(&self, i: u32) -> (targets: u32)
        requires
            self.wf(),
            i < GIC_FRAME_IRQS,
        ensures
            targets == self.targets(i),
    {
        proof {
            lemma_cell_range(ITARGETSR_OFFSET as int, 8, i);
        }
        self.bank.read_field(ITARGETSR_OFFSET, 8, i)
    }
}

/// Law: setting and then clearing one interrupt's enable bit leaves that
/// interrupt disabled, and no other interrupt's state has moved across the
/// two operations.
pub proof fn lemma_enable_set_clear_round_trip(s0: GicFrame, s1: GicFrame, s2: GicFrame, i: u32)
    requires
        frame_step(s0, s1, i),
        s1.irq(i) == (IrqSnapshot { enabled: true, ..s0.irq(i) }),
        frame_step(s1, s2, i),
        s2.irq(i) == (IrqSnapshot { enabled: false, ..s1.irq(i) }),
    ensures
        !s2.enabled(i),
        forall|j: u32| j < GIC_FRAME_IRQS && j != i ==> #[trigger] s2.irq(j) == s0.irq(j),
{
    assert forall|j: u32| j < GIC_FRAME_IRQS && j != i implies #[trigger] s2.irq(j) == s0.irq(
        j,
    ) by {
        assert(s2.irq(j) == s1.irq(j));
        assert(s1.irq(j) == s0.irq(j));
    }
}

/// Law: an enable operation on a different interrupt, interleaved between
/// setting and clearing interrupt `i`'s enable bit, is a no-op on that
/// other interrupt: it stays enabled with the rest of its state as it was
/// at the start, while `i` ends up disabled.
pub proof fn lemma_enable_interleaving_no_op(
    s0: GicFrame,
    s1: GicFrame,
    s2: GicFrame,
    s3: GicFrame,
    i: u32,
    other: u32,
)
    requires
        i != other,
        i < GIC_FRAME_IRQS,
        other < GIC_FRAME_IRQS,
        frame_step(s0, s1, i),
        s1.irq(i) == (IrqSnapshot { enabled: true, ..s0.irq(i) }),
        frame_step(s1, s2, other),
        s2.irq(other) == (IrqSnapshot { enabled: true, ..s1.irq(other) }),
        frame_step(s2, s3, i),
        s3.irq(i) == (IrqSnapshot { enabled: false, ..s2.irq(i) }),
    ensures
        !s3.enabled(i),
        s3.enabled(other),
        s3.irq(other) == (IrqSnapshot { enabled: true, ..s0.irq(other) }),
{
    assert(s3.irq(other) == s2.irq(other));
    assert(s1.irq(other) == s0.irq(other));
}

/// Law: marking one interrupt pending makes exactly its pending state
/// observable, and clearing it afterwards makes it unobservable again; no
/// other interrupt's state has moved across the two operations.
pub proof fn lemma_pending_round_trip(s0: GicFrame, s1: GicFrame, s2: GicFrame, i: u32)
    requires
        frame_step(s0, s1, i),
        s1.irq(i) == (IrqSnapshot { pending: true, ..s0.irq(i) }),
        frame_step(s1, s2, i),
        s2.irq(i) == (IrqSnapshot { pending: false, ..s1.irq(i) }),
    ensures
        s1.pending(i),
        !s2.pending(i),
        forall|j: u32| j < GIC_FRAME_IRQS && j != i ==> #[trigger] s2.irq(j) == s0.irq(j),
{
    assert forall|j: u32| j < GIC_FRAME_IRQS && j != i implies #[trigger] s2.irq(j) == s0.irq(
        j,
    ) by {
        assert(s2.irq(j) == s1.irq(j));
        assert(s1.irq(j) == s0.irq(j));
    }
}

} // verus!
