use gic_core::bringup::{BringUpPhase, InterruptSystem, TimerConfig, TIMER_IRQ};
use gic_core::common::{CpuId, GicError, InterruptType};
use gic_core::exception::ExceptionContext;
use gic_core::gic_dist::GicDistributor;
use gic_core::gic_redist::{GicRedist, WakerPort, WAKER_PROCESSOR_SLEEP_BIT};
use gic_core::sysreg::SysRegs;
use gic_core::timer::PhysTimer;

const EL1_RAW: u64 = 1 << 2;
const DELTA: u64 = 100_000;

fn timer_config() -> TimerConfig {
    TimerConfig {
        vector_table_base: 0x0008_0000,
        irq: TIMER_IRQ,
        priority: 0,
        target: CpuId::Cpu0,
        trigger: InterruptType::LevelSensitive,
        delta: DELTA,
        wake_poll_bound: 16,
    }
}

fn fresh_system(asleep_reads: u32, sre_supported: bool) -> InterruptSystem {
    InterruptSystem::new(
        timer_config(),
        SysRegs::new(EL1_RAW, sre_supported),
        GicDistributor::new(),
        GicRedist::new(WakerPort::new(WAKER_PROCESSOR_SLEEP_BIT, asleep_reads)),
        PhysTimer::new(62_500_000),
    )
}

#[test]
fn timer_arm_order_and_expiry() {
    let mut timer = PhysTimer::new(1_000_000);
    assert_eq!(timer.read_frequency(), 1_000_000);
    let compare = timer.arm(500);
    assert_eq!(compare, 500);
    assert!(!timer.is_fired());
    timer.advance(499);
    assert!(!timer.is_fired());
    timer.advance(1);
    assert!(timer.is_fired());
}

#[test]
fn bring_up_walks_the_phases_in_order() {
    let mut sys = fresh_system(2, true);
    assert_eq!(sys.current_phase(), BringUpPhase::Uninitialized);
    assert_eq!(sys.step(), Ok(BringUpPhase::VectorInstalled));
    assert_eq!(sys.step(), Ok(BringUpPhase::DistributorConfigured));
    assert_eq!(sys.step(), Ok(BringUpPhase::RedistributorAwake));
    assert_eq!(sys.step(), Ok(BringUpPhase::CpuInterfaceReady));
    assert_eq!(sys.step(), Ok(BringUpPhase::TimerInterruptConfigured));
    assert_eq!(sys.step(), Ok(BringUpPhase::TimerArmed));
    assert_eq!(sys.step(), Ok(BringUpPhase::Running));
    assert_eq!(sys.step(), Ok(BringUpPhase::Running));
}

#[test]
fn bring_up_configures_everything() {
    let mut sys = fresh_system(2, true);
    assert_eq!(sys.bring_up(), Ok(()));
    assert_eq!(sys.current_phase(), BringUpPhase::Running);

    // Vector table installed.
    assert_eq!(sys.sysregs_ref().read_vbar(), 0x0008_0000);
    // Distributor globally configured.
    assert_eq!(sys.distributor_ref().get_ctlr(), 0x63);
    // CPU interface ready: system-register interface on, priority mask wide
    // open, Group 1 signalling on, interrupts unmasked.
    assert_eq!(sys.sysregs_ref().read_icc_sre() & 1, 1);
    assert_eq!(sys.sysregs_ref().read_icc_pmr(), 0xFF);
    assert_eq!(sys.sysregs_ref().read_icc_igrpen1() & 1, 1);
    assert_eq!(sys.sysregs_ref().read_daif() & 0x2, 0);
    // Timer interrupt configured at the redistributor, targeted at the
    // distributor.
    assert!(sys.redistributor_ref().get_enable(TIMER_IRQ));
    assert_eq!(sys.redistributor_ref().get_priority(TIMER_IRQ), 0);
    assert_eq!(sys.redistributor_ref().get_cfg(TIMER_IRQ), 0);
    assert!(!sys.redistributor_ref().get_pending(TIMER_IRQ));
    assert_eq!(sys.distributor_ref().get_target(TIMER_IRQ), 1);
    // Timer armed and not yet fired.
    assert!(!sys.timer_ref().is_fired());
    assert_eq!(sys.timer_ref().read_compare(), DELTA);
}

#[test]
fn bring_up_times_out_on_unresponsive_redistributor() {
    let mut sys = fresh_system(u32::MAX, true);
    assert_eq!(sys.bring_up(), Err(GicError::WakeTimeout));
    assert_ne!(sys.current_phase(), BringUpPhase::Running);
}

#[test]
fn bring_up_reports_ignored_sre_write() {
    let mut sys = fresh_system(0, false);
    assert_eq!(sys.bring_up(), Err(GicError::SreWriteIgnored));
    assert_ne!(sys.current_phase(), BringUpPhase::Running);
}

#[test]
fn end_to_end_timer_interrupt_flow() {
    // Configure timer interrupt 30 level-sensitive, priority 0, target
    // processing element 0; enable it; clear pending; bring the system up.
    let mut sys = fresh_system(1, true);
    assert_eq!(sys.bring_up(), Ok(()));

    // Simulate the timer expiring.
    sys.advance_time(DELTA + 5);
    assert!(sys.timer_ref().is_fired());
    sys.raise_timer_pending();
    assert!(sys.redistributor_ref().get_pending(TIMER_IRQ));
    assert!(sys.distributor_ref().get_pending(TIMER_IRQ));
    assert_eq!(
        sys.check_steady_state(),
        Err(GicError::UnexpectedPending)
    );

    // Dispatch to the handler with a trapped-context snapshot.
    let old_compare = sys.timer_ref().read_compare();
    let ctx = ExceptionContext::new([0; 31], 0x4000_1234, 0x3C5);
    let next_compare = sys.handle_timer_interrupt(&ctx);

    // The handler re-armed strictly past the previous compare point and
    // acknowledged: pending is clear immediately afterwards.
    assert!(next_compare > old_compare);
    assert_eq!(next_compare, DELTA + 5 + DELTA);
    assert!(!sys.redistributor_ref().get_pending(TIMER_IRQ));
    assert!(!sys.distributor_ref().get_pending(TIMER_IRQ));
    assert!(!sys.timer_ref().is_fired());
    assert_eq!(sys.check_steady_state(), Ok(()));
}

#[test]
fn handler_can_run_repeatedly() {
    let mut sys = fresh_system(0, true);
    assert_eq!(sys.bring_up(), Ok(()));
    let ctx = ExceptionContext::new([7; 31], 0, 0);
    let mut last_compare = sys.timer_ref().read_compare();
    for _ in 0..3 {
        sys.advance_time(DELTA * 2);
        assert!(sys.timer_ref().is_fired());
        sys.raise_timer_pending();
        let next = sys.handle_timer_interrupt(&ctx);
        assert!(next > last_compare);
        last_compare = next;
        assert_eq!(sys.check_steady_state(), Ok(()));
    }
}
