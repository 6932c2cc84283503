//! The timer-interrupt bring-up state machine and the steady-state
//! interrupt flow.
//!
//! Bring-up is a one-directional sequence: install the vector table,
//! configure the distributor globally, wake the redistributor, ready the
//! CPU interface, configure the timer interrupt, arm the timer, run.  Each
//! transition is one `step`; a failure (wake timeout, ignored
//! system-register enable) is fatal to bring-up and aborts the sequence
//! with a typed error.  `established` names the facts each phase has
//! secured; `step` proves it carries them forward.
//!
//! At runtime, the timer firing latches the interrupt pending, the handler
//! re-arms the compare value strictly past the old one and acknowledges by
//! clearing the pending state, and the steady-state check reports a
//! pending timer interrupt as the fault that it is.

use vstd::prelude::*;

use crate::common::{CpuId, GicError, InterruptType};
use crate::exception::{init_exception_table, ExceptionContext};
use crate::gic_dist::GicDistributor;
use crate::gic_redist::{wake_polls_needed, GicRedist, GICR_IRQS};
use crate::sysreg::{SysRegs, PMR_ACCEPT_ALL};
use crate::timer::PhysTimer;

verus! {

/// Interrupt identifier of the physical timer: a private peripheral
/// interrupt.
pub const TIMER_IRQ: u32 = 30;

/// The bring-up sequence's phases, in order.
#[derive(Clone, Copy, Debug, PartialEq, Eq, Structural)]
pub enum BringUpPhase {
    Uninitialized,
    VectorInstalled,
    DistributorConfigured,
    RedistributorAwake,
    CpuInterfaceReady,
    TimerInterruptConfigured,
    TimerArmed,
    Running,
}

/// Position of a phase in the bring-up order.
pub open spec fn phase_rank(phase: BringUpPhase) -> int {
    match phase {
        BringUpPhase::Uninitialized => 0,
        BringUpPhase::VectorInstalled => 1,
        BringUpPhase::DistributorConfigured => 2,
        BringUpPhase::RedistributorAwake => 3,
        BringUpPhase::CpuInterfaceReady => 4,
        BringUpPhase::TimerInterruptConfigured => 5,
        BringUpPhase::TimerArmed => 6,
        BringUpPhase::Running => 7,
    }
}

/// The configuration the orchestration is constructed with, in place of
/// fixed platform constants.
#[derive(Clone, Copy)]
pub struct TimerConfig {
    /// Base address to install into the vector-base register.
    pub vector_table_base: u64,
    /// The timer's interrupt identifier.
    pub irq: u32,
    /// Priority to give the timer interrupt (0 is highest).
    pub priority: u8,
    /// Processing element to target.
    pub target: CpuId,
    /// Trigger mode to configure.
    pub trigger: InterruptType,
    /// Time-to-wait delta between timer interrupts, in counter ticks.
    pub delta: u64,
    /// How many times the wake handshake may poll before timing out.
    pub wake_poll_bound: u32,
}

impl TimerConfig {
    /// The interrupt is one the redistributor holds, and the delta is a
    /// real wait.
    pub open spec fn wf(self) -> bool {
        self.irq < GICR_IRQS && self.delta > 0
    }
}

/// The whole interrupt subsystem, owned together, with the bring-up phase
/// it has reached.
pub struct InterruptSystem {
    phase: BringUpPhase,
    cfg: TimerConfig,
    sysregs: SysRegs,
    dist: GicDistributor,
    redist: GicRedist,
    timer: PhysTimer,
}

impl InterruptSystem {
    /// The phase the bring-up has reached.
    pub closed spec fn phase(self) -> BringUpPhase {
        self.phase
    }

    /// The construction-time configuration.
    pub closed spec fn cfg(self) -> TimerConfig {
        self.cfg
    }

    /// The system-register file.
    pub closed spec fn sysregs(self) -> SysRegs {
        self.sysregs
    }

    /// The distributor.
    pub closed spec fn dist(self) -> GicDistributor {
        self.dist
    }

    /// The redistributor.
    pub closed spec fn redist(self) -> GicRedist {
        self.redist
    }

    /// The physical timer.
    pub closed spec fn timer(self) -> PhysTimer {
        self.timer
    }

    /// Structural well-formedness of the owned components.
    pub open spec fn wf(self) -> bool {
        &&& self.cfg().wf()
        &&& self.dist().wf()
        &&& self.redist().wf()
    }

    /// The timer interrupt is fully configured: Group 1, enabled, at the
    /// configured priority and trigger mode at the redistributor, and
    /// targeted at the configured processing element at the distributor.
    pub open spec fn timer_irq_configured(self) -> bool {
        &&& self.redist().irq(self.cfg().irq).group == 1
        &&& self.redist().irq(self.cfg().irq).enabled
        &&& self.redist().irq(self.cfg().irq).priority == self.cfg().priority as u32
        &&& self.redist().irq(self.cfg().irq).cfg == self.cfg().trigger.spec_encoding()
        &&& self.dist().irq(self.cfg().irq).targets & (1u32 << self.cfg().target.spec_index())
            != 0
    }

    /// The facts the bring-up has secured so far, phase by phase.  Each
    /// transition adds one conjunct and every later operation preserves
    /// the earlier ones.
    pub open spec fn established(self) -> bool {
        &&& (phase_rank(self.phase()) >= 1 ==> self.sysregs().vbar()
            == self.cfg().vector_table_base)
        &&& (phase_rank(self.phase()) >= 2 ==> self.dist().globally_configured())
        &&& (phase_rank(self.phase()) >= 3 ==> self.redist().awake())
        &&& (phase_rank(self.phase()) >= 4 ==> self.sysregs().cpu_interface_ready())
        &&& (phase_rank(self.phase()) >= 5 ==> self.timer_irq_configured())
        &&& (phase_rank(self.phase()) >= 6 ==> self.timer().enabled())
    }

    /// Take ownership of the components, ready to bring up.
    pub fn new(
        cfg: TimerConfig,
        sysregs: SysRegs,
        dist: GicDistributor,
        redist: GicRedist,
        timer: PhysTimer,
    ) -> (sys: InterruptSystem)
        requires
            cfg.wf(),
            dist.wf(),
            redist.wf(),
        ensures
            sys.wf(),
            sys.established(),
            sys.phase() == BringUpPhase::Uninitialized,
            sys.cfg() == cfg,
            sys.sysregs() == sysregs,
            sys.dist() == dist,
            sys.redist() == redist,
            sys.timer() == timer,
    {
        InterruptSystem { phase: BringUpPhase::Uninitialized, cfg, sysregs, dist, redist, timer }
    }

    /// The phase the bring-up has reached.
    pub fn current_phase(&self) -> (phase: BringUpPhase)
        ensures
            phase == self.phase(),
    {
        self.phase
    }

    /// Perform the next bring-up transition.  Exactly two transitions can
    /// fail: the wake handshake (timeout) and the system-register enable
    /// (write ignored); a failure leaves the phase where it was and aborts
    /// nothing that was already secured.  Every other transition succeeds
    /// and advances the phase by one; stepping a running system changes
    /// nothing.
    pub fn step(&mut self) -> (result: Result<BringUpPhase, GicError>)
        requires
            old(self).wf(),
            old(self).established(),
            old(self).timer().counter() + old(self).cfg().delta <= u64::MAX,
        ensures
            final(self).wf(),
            final(self).established(),
            final(self).cfg() == old(self).cfg(),
            final(self).timer().counter() == old(self).timer().counter(),
            final(self).sysregs().sre_supported() == old(self).sysregs().sre_supported(),
            result is Ok ==> result == Ok::<BringUpPhase, GicError>(final(self).phase()),
            result is Ok && old(self).phase() != BringUpPhase::Running ==> phase_rank(
                final(self).phase(),
            ) == phase_rank(old(self).phase()) + 1,
            old(self).phase() == BringUpPhase::Running ==> result == Ok::<
                BringUpPhase,
                GicError,
            >(BringUpPhase::Running) && final(self).phase() == BringUpPhase::Running,
            result is Err ==> final(self).phase() == old(self).phase(),
            old(self).phase() == BringUpPhase::DistributorConfigured ==> (result is Err
                <==> wake_polls_needed(old(self).redist().asleep_reads()) > old(
                self,
            ).cfg().wake_poll_bound) && (result is Err ==> result == Err::<
                BringUpPhase,
                GicError,
            >(GicError::WakeTimeout)),
            old(self).phase() == BringUpPhase::RedistributorAwake ==> (result is Err <==> !(old(
                self,
            ).sysregs().sre_supported() || old(self).sysregs().sre_enabled())) && (result is Err
                ==> result == Err::<BringUpPhase, GicError>(GicError::SreWriteIgnored)),
            old(self).phase() != BringUpPhase::DistributorConfigured && old(self).phase()
                != BringUpPhase::RedistributorAwake ==> result is Ok,
            phase_rank(old(self).phase()) < 2 ==> final(self).redist() == old(self).redist(),
            phase_rank(old(self).phase()) != 3 ==> final(self).sysregs().sre_enabled() == old(
                self,
            ).sysregs().sre_enabled(),
    {
        match self.phase {
            BringUpPhase::Uninitialized => {
                // Install the vector-table base: traps must have somewhere
                // to land before anything can fire.
                init_exception_table(&mut self.sysregs, self.cfg.vector_table_base);
                self.phase = BringUpPhase::VectorInstalled;
                Ok(self.phase)
            },
            BringUpPhase::VectorInstalled => {
                // Global distributor settings, in their mandatory order.
                self.dist.init_gic();
                self.phase = BringUpPhase::DistributorConfigured;
                Ok(self.phase)
            },
            BringUpPhase::DistributorConfigured => {
                // The wake handshake, bounded; a timeout is fatal.
                match self.redist.init(self.cfg.wake_poll_bound) {
                    Ok(_polls) => {
                        self.phase = BringUpPhase::RedistributorAwake;
                        Ok(self.phase)
                    },
                    Err(err) => Err(err),
                }
            },
            BringUpPhase::RedistributorAwake => {
                // The CPU interface: the system-register enable must come
                // first, and its failure is fatal.
                match self.sysregs.enable_sre() {
                    Ok(()) => {
                        self.sysregs.set_priority_mask(PMR_ACCEPT_ALL);
                        self.sysregs.enable_group1();
                        self.sysregs.unmask_irqs();
                        self.phase = BringUpPhase::CpuInterfaceReady;
                        Ok(self.phase)
                    },
                    Err(err) => Err(err),
                }
            },
            BringUpPhase::CpuInterfaceReady => {
                // Per-interrupt configuration of the timer interrupt.
                let irq = self.cfg.irq;
                self.redist.set_group(irq, true);
                self.redist.set_priority(irq, self.cfg.priority);
                let bits = self.cfg.trigger.encoding();
                match self.redist.set_cfg(irq, bits) {
                    Ok(()) => (),
                    Err(_) => (),
                }
                let target_bit = self.cfg.target.index();
                match self.dist.set_target(irq, target_bit) {
                    Ok(()) => (),
                    Err(_) => (),
                }
                self.redist.clear_pending(irq);
                self.redist.set_enable(irq);
                proof {
                    let t = old(self).dist().irq(old(self).cfg().irq).targets;
                    let c = old(self).cfg().target.spec_index();
                    assert(c <= 7 ==> (t | (1u32 << c)) & (1u32 << c) != 0) by (bit_vector);
                }
                self.phase = BringUpPhase::TimerInterruptConfigured;
                Ok(self.phase)
            },
            BringUpPhase::TimerInterruptConfigured => {
                // Arm the timer: frequency read for diagnostics, delta
                // first, compare read back, enable last.
                let _freq = self.timer.read_frequency();
                let _compare = self.timer.arm(self.cfg.delta);
                self.phase = BringUpPhase::TimerArmed;
                Ok(self.phase)
            },
            BringUpPhase::TimerArmed => {
                // Steady state: from here on the flow is interrupt-driven.
                self.phase = BringUpPhase::Running;
                Ok(self.phase)
            },
            BringUpPhase::Running => Ok(BringUpPhase::Running),
        }
    }

    /// Run the whole bring-up sequence from the start.  Success is owed
    /// exactly when the wake handshake fits the poll bound and the
    /// hardware honours the system-register enable; the first failing
    /// transition's error aborts the sequence.
    pub fn bring_up(&mut self) -> (result: Result<(), GicError>)
        requires
            old(self).wf(),
            old(self).established(),
            old(self).phase() == BringUpPhase::Uninitialized,
            old(self).timer().counter() + old(self).cfg().delta <= u64::MAX,
        ensures
            final(self).wf(),
            final(self).established(),
            final(self).cfg() == old(self).cfg(),
            result is Ok <==> wake_polls_needed(old(self).redist().asleep_reads()) <= old(
                self,
            ).cfg().wake_poll_bound && (old(self).sysregs().sre_supported() || old(
                self,
            ).sysregs().sre_enabled()),
            result is Ok ==> final(self).phase() == BringUpPhase::Running,
            wake_polls_needed(old(self).redist().asleep_reads()) > old(self).cfg().wake_poll_bound
                ==> result == Err::<(), GicError>(GicError::WakeTimeout),
            result is Err && wake_polls_needed(old(self).redist().asleep_reads()) <= old(
                self,
            ).cfg().wake_poll_bound ==> result == Err::<(), GicError>(GicError::SreWriteIgnored),
    {
        match self.step() {
            Ok(_) => (),
            Err(err) => {
                return Err(err);
            },
        }
        match self.step() {
            Ok(_) => (),
            Err(err) => {
                return Err(err);
            },
        }
        match self.step() {
            Ok(_) => (),
            Err(err) => {
                return Err(err);
            },
        }
        match self.step() {
            Ok(_) => (),
            Err(err) => {
                return Err(err);
            },
        }
        match self.step() {
            Ok(_) => (),
            Err(err) => {
                return Err(err);
            },
        }
        match self.step() {
            Ok(_) => (),
            Err(err) => {
                return Err(err);
            },
        }
        match self.step() {
            Ok(_) => (),
            Err(err) => {
                return Err(err);
            },
        }
        Ok(())
    }

    /// Let the physical counter advance, as time passing does; nothing
    /// that bring-up secured moves.
    pub fn advance_time(&mut self, ticks: u64)
        requires
            old(self).wf(),
            old(self).established(),
            old(self).timer().counter() + ticks <= u64::MAX,
        ensures
            final(self).wf(),
            final(self).established(),
            final(self).phase() == old(self).phase(),
            final(self).cfg() == old(self).cfg(),
            final(self).timer().counter() == old(self).timer().counter() + ticks,
            final(self).timer().compare() == old(self).timer().compare(),
            final(self).timer().enabled() == old(self).timer().enabled(),
            final(self).dist() == old(self).dist(),
            final(self).redist() == old(self).redist(),
            final(self).sysregs() == old(self).sysregs(),
    {
        self.timer.advance(ticks);
    }

    /// The hardware consequence of the timer firing: the timer interrupt
    /// is latched pending at the redistributor and the distributor.
    pub fn raise_timer_pending(&mut self)
        requires
            old(self).wf(),
            old(self).established(),
            old(self).timer().fired(),
        ensures
            final(self).wf(),
            final(self).established(),
            final(self).phase() == old(self).phase(),
            final(self).cfg() == old(self).cfg(),
            final(self).timer() == old(self).timer(),
            final(self).sysregs() == old(self).sysregs(),
            final(self).redist().irq(old(self).cfg().irq).pending,
            final(self).dist().irq(old(self).cfg().irq).pending,
    {
        let irq = self.cfg.irq;
        self.redist.set_pending(irq);
        self.dist.set_pending(irq);
    }

    /// The timer interrupt handler: re-program the next compare point one
    /// delta ahead, read the new compare value back for the caller, and
    /// acknowledge by clearing the pending state.  The new compare value
    /// is strictly past the old one, so the same expiry cannot fire
    /// twice; the handler does not block and must not assume anything of
    /// the interrupted context beyond the read-only frame it is handed.
    pub fn handle_timer_interrupt(&mut self, _ctx: &ExceptionContext) -> (next_compare: u64)
        requires
            old(self).wf(),
            old(self).established(),
            old(self).timer().fired(),
            old(self).timer().counter() + old(self).cfg().delta <= u64::MAX,
        ensures
            final(self).wf(),
            final(self).established(),
            final(self).phase() == old(self).phase(),
            final(self).cfg() == old(self).cfg(),
            next_compare == old(self).timer().counter() + old(self).cfg().delta,
            next_compare > old(self).timer().compare(),
            final(self).timer().compare() == next_compare,
            !final(self).timer().fired(),
            !final(self).redist().irq(old(self).cfg().irq).pending,
            !final(self).dist().irq(old(self).cfg().irq).pending,
            final(self).sysregs() == old(self).sysregs(),
            final(self).timer().counter() == old(self).timer().counter(),
    {
        // Re-program the next compare point and read it back.
        self.timer.set_timer_value(self.cfg.delta);
        let next_compare = self.timer.read_compare();

        // Acknowledge: the pending state is cleared at both controllers.
        let irq = self.cfg.irq;
        self.redist.clear_pending(irq);
        self.dist.clear_pending(irq);
        next_compare
    }

    /// The steady-state check: a pending timer interrupt means the
    /// handler did not run and acknowledge it, which is a detectable
    /// fault, not a condition to ignore.
    pub fn check_steady_state(&self) -> (result: Result<(), GicError>)
        requires
            self.wf(),
        ensures
            result == Ok::<(), GicError>(()) <==> !self.redist().irq(self.cfg().irq).pending
                && !self.dist().irq(self.cfg().irq).pending,
            result is Err ==> result == Err::<(), GicError>(GicError::UnexpectedPending),
    {
        let irq = self.cfg.irq;
        if self.redist.get_pending(irq) || self.dist.get_pending(irq) {
            Err(GicError::UnexpectedPending)
        } else {
            Ok(())
        }
    }

    /// The construction-time configuration.
    pub fn config(&self) -> (cfg: TimerConfig)
        ensures
            cfg == self.cfg(),
    {
        self.cfg
    }

    /// Borrow the distributor.
    pub fn distributor_ref(&self) -> (dist: &GicDistributor)
        ensures
            *dist == self.dist(),
    {
        &self.dist
    }

    /// Borrow the redistributor.
    pub fn redistributor_ref(&self) -> (redist: &GicRedist)
        ensures
            *redist == self.redist(),
    {
        &self.redist
    }

    /// Borrow the system registers.
    pub fn sysregs_ref(&self) -> (regs: &SysRegs)
        ensures
            *regs == self.sysregs(),
    {
        &self.sysregs
    }

    /// Borrow the timer.
    pub fn timer_ref(&self) -> (timer: &PhysTimer)
        ensures
            *timer == self.timer(),
    {
        &self.timer
    }
}

} // verus!
