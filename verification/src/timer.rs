//! The physical hardware timer: a frequency register, a control register,
//! a compare value, and the physical counter.
//!
//! The timer fires — asserts its interrupt line — while it is enabled and
//! the counter has reached the compare value.  Arming therefore follows
//! the mandatory order: write the time-to-wait delta (which latches the
//! compare value at counter + delta), read the resulting compare value
//! back, and only then enable the counter; enabling first would fire a
//! spurious interrupt at once.

use vstd::prelude::*;

verus! {

/// Timer control register bit: the counter is enabled.
pub const CNTP_CTL_ENABLE_BIT: u32 = 0x1;

/// The physical timer's registers.
pub struct PhysTimer {
    cntfrq: u64,
    ctl: u32,
    cval: u64,
    count: u64,
}

impl PhysTimer {
    /// Value of the frequency register.
    pub closed spec fn frequency(self) -> u64 {
        self.cntfrq
    }

    /// Value of the control register.
    pub closed spec fn ctl(self) -> u32 {
        self.ctl
    }

    /// Value of the compare register.
    pub closed spec fn compare(self) -> u64 {
        self.cval
    }

    /// Value of the physical counter.
    pub closed spec fn counter(self) -> u64 {
        self.count
    }

    /// The counter is enabled.
    pub open spec fn enabled(self) -> bool {
        self.ctl() & CNTP_CTL_ENABLE_BIT != 0
    }

    /// The timer's interrupt line is asserted: it is enabled and the
    /// counter has reached the compare value.
    pub open spec fn fired(self) -> bool {
        self.enabled() && self.counter() >= self.compare()
    }

    /// A disarmed timer ticking at the given frequency, its counter at
    /// zero.
    pub fn new(cntfrq: u64) -> (timer: PhysTimer)
        ensures
            timer.frequency() == cntfrq,
            timer.ctl() == 0,
            timer.compare() == 0,
            timer.counter() == 0,
            !timer.enabled(),
    {
        proof {
            assert(0u32 & 0x1u32 == 0) by (bit_vector);
        }
        PhysTimer { cntfrq, ctl: 0, cval: 0, count: 0 }
    }

    /// Read the timer frequency.
    pub fn read_frequency(&self) -> (freq: u64)
        ensures
            freq == self.frequency(),
    {
        self.cntfrq
    }

    /// Read the physical counter.
    pub fn read_counter(&self) -> (count: u64)
        ensures
            count == self.counter(),
    {
        self.count
    }

    /// Read the compare register.
    pub fn read_compare(&self) -> (compare: u64)
        ensures
            compare == self.compare(),
    {
        self.cval
    }

    /// Write the time-to-wait delta into the down-counter configuration:
    /// the hardware latches the compare value at counter + delta.
    pub fn set_timer_value(&mut self, delta: u64)
        requires
            old(self).counter() + delta <= u64::MAX,
        ensures
            final(self).compare() == old(self).counter() + delta,
            final(self).frequency() == old(self).frequency(),
            final(self).ctl() == old(self).ctl(),
            final(self).counter() == old(self).counter(),
    {
        self.cval = self.count + delta;
    }

    /// Enable the counter.
    pub fn enable(&mut self)
        ensures
            final(self).ctl() == old(self).ctl() | CNTP_CTL_ENABLE_BIT,
            final(self).enabled(),
            final(self).frequency() == old(self).frequency(),
            final(self).compare() == old(self).compare(),
            final(self).counter() == old(self).counter(),
    {
        proof {
            let v = old(self).ctl();
            assert((v | 0x1u32) & 0x1u32 != 0) by (bit_vector);
        }
        self.ctl = self.ctl | CNTP_CTL_ENABLE_BIT;
    }

    /// Arm the timer, in the mandatory order: write the delta, read the
    /// resulting compare value, then enable the counter.  The timer comes
    /// out armed and not yet fired.
    pub fn arm(&mut self, delta: u64) -> (compare: u64)
        requires
            delta > 0,
            old(self).counter() + delta <= u64::MAX,
        ensures
            compare == old(self).counter() + delta,
            final(self).compare() == compare,
            final(self).enabled(),
            !final(self).fired(),
            final(self).frequency() == old(self).frequency(),
            final(self).counter() == old(self).counter(),
    {
        self.set_timer_value(delta);
        let compare = self.read_compare();
        self.enable();
        compare
    }

    /// Let the physical counter advance, as time passing does.
    pub fn advance(&mut self, ticks: u64)
        requires
            old(self).counter() + ticks <= u64::MAX,
        ensures
            final(self).counter() == old(self).counter() + ticks,
            final(self).frequency() == old(self).frequency(),
            final(self).ctl() == old(self).ctl(),
            final(self).compare() == old(self).compare(),
    {
        self.count = self.count + ticks;
    }

    /// Whether the timer's interrupt line is asserted.
    pub fn is_fired(&self) -> (fired: bool)
        ensures
            fired == self.fired(),
    {
        (self.ctl & CNTP_CTL_ENABLE_BIT != 0) && self.count >= self.cval
    }
}

} // verus!
