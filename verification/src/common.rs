//! Shared interrupt-controller types: interrupt trigger modes, target
//! processing elements, and the error taxonomy of the bring-up path.

use vstd::prelude::*;

verus! {

/// Trigger mode of an interrupt, encoded as a 2-bit configuration field in
/// which only bit 1 is architecturally meaningful.
#[derive(Clone, Copy, Debug, PartialEq, Eq, Structural)]
pub enum InterruptType {
    /// Level-sensitive interrupt.
    LevelSensitive,
    /// Edge-triggered interrupt.
    EdgeTriggered,
}

impl InterruptType {
    /// The 2-bit configuration field value for this trigger mode.
    pub open spec fn spec_encoding(self) -> u32 {
        match self {
            InterruptType::LevelSensitive => 0,
            InterruptType::EdgeTriggered => 2,
        }
    }

    /// Encode the trigger mode as its 2-bit configuration field value.
    pub fn encoding(&self) -> (bits: u32)
        ensures
            bits == self.spec_encoding(),
            bits <= 3,
    {
        match self {
            InterruptType::LevelSensitive => 0,
            InterruptType::EdgeTriggered => 2,
        }
    }
}

/// A target processing element for legacy (non-affinity-routed) interrupt
/// targeting.  Only eight targets exist; any larger raw value is rejected by
/// the controllers.
#[derive(Clone, Copy, Debug, PartialEq, Eq, Structural)]
pub enum CpuId {
    Cpu0,
    Cpu1,
    Cpu2,
    Cpu3,
    Cpu4,
    Cpu5,
    Cpu6,
    Cpu7,
}

impl CpuId {
    /// The target's position inside an 8-bit target field.
    pub open spec fn spec_index(self) -> u32 {
        match self {
            CpuId::Cpu0 => 0,
            CpuId::Cpu1 => 1,
            CpuId::Cpu2 => 2,
            CpuId::Cpu3 => 3,
            CpuId::Cpu4 => 4,
            CpuId::Cpu5 => 5,
            CpuId::Cpu6 => 6,
            CpuId::Cpu7 => 7,
        }
    }

    /// Bit position of this target inside an 8-bit target field.
    pub fn index(&self) -> (bit: u32)
        ensures
            bit == self.spec_index(),
            bit <= 7,
    {
        match self {
            CpuId::Cpu0 => 0,
            CpuId::Cpu1 => 1,
            CpuId::Cpu2 => 2,
            CpuId::Cpu3 => 3,
            CpuId::Cpu4 => 4,
            CpuId::Cpu5 => 5,
            CpuId::Cpu6 => 6,
            CpuId::Cpu7 => 7,
        }
    }
}

/// Errors of the interrupt-controller bring-up path.
#[derive(Clone, Copy, Debug, PartialEq, Eq, Structural)]
pub enum GicError {
    /// A caller asked to target a processing element outside the eight that
    /// legacy targeting can address.
    TargetOutOfRange,
    /// A caller supplied an interrupt configuration value that does not fit
    /// the 2-bit configuration field.
    ConfigOutOfRange,
    /// The redistributor wake handshake did not complete within the caller's
    /// poll bound: the hardware is unresponsive.
    WakeTimeout,
    /// The write enabling the system-register interface did not take effect:
    /// a fatal misconfiguration, bring-up cannot continue.
    SreWriteIgnored,
    /// The timer interrupt was found pending at steady state, meaning the
    /// handler did not run and acknowledge it.
    UnexpectedPending,
}

} // verus!
