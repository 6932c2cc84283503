use gic_core::common::{CpuId, GicError, InterruptType};
use gic_core::gic::Gic;
use gic_core::gic_dist::GicDistributor;
use gic_core::gic_redist::{GicRedist, WakerPort, WAKER_PROCESSOR_SLEEP_BIT};

fn fresh_gic(asleep_reads: u32) -> Gic {
    let dist = GicDistributor::new();
    let redist = GicRedist::new(WakerPort::new(WAKER_PROCESSOR_SLEEP_BIT, asleep_reads));
    Gic::new(dist, redist)
}

#[test]
fn init_gic_brings_up_both_halves() {
    let mut gic = fresh_gic(3);
    assert_eq!(gic.init_gic(8), Ok(3));
    assert_eq!(gic.distributor_ref().get_ctlr(), 0x63);
}

#[test]
fn init_gic_propagates_wake_timeout() {
    let mut gic = fresh_gic(u32::MAX);
    assert_eq!(gic.init_gic(4), Err(GicError::WakeTimeout));
}

#[test]
fn timer_interrupt_configuration_flow() {
    const TIMER_IRQ: u32 = 30;
    let mut gic = fresh_gic(0);
    assert_eq!(gic.init_gic(4), Ok(1));

    gic.set_cfg(TIMER_IRQ, InterruptType::LevelSensitive);
    gic.set_priority(TIMER_IRQ, 0);
    gic.set_target(TIMER_IRQ, CpuId::Cpu0);
    gic.clear_pending(TIMER_IRQ);
    gic.set_enable(TIMER_IRQ);
    gic.set_group(TIMER_IRQ, true);

    assert_eq!(gic.distributor_ref().get_cfg(TIMER_IRQ), 0);
    assert_eq!(gic.distributor_ref().get_priority(TIMER_IRQ), 0);
    assert_eq!(gic.distributor_ref().get_target(TIMER_IRQ), 1);
    assert!(!gic.get_pending(TIMER_IRQ));
    assert!(gic.distributor_ref().get_enable(TIMER_IRQ));
    assert_eq!(gic.distributor_ref().get_group(TIMER_IRQ), 1);
}

#[test]
fn edge_triggered_cfg_encoding() {
    let mut gic = fresh_gic(0);
    gic.set_cfg(7, InterruptType::EdgeTriggered);
    assert_eq!(gic.distributor_ref().get_cfg(7), 2);
}

#[test]
fn target_cpu_encodings() {
    let mut gic = fresh_gic(0);
    gic.set_target(40, CpuId::Cpu7);
    assert_eq!(gic.distributor_ref().get_target(40), 0b1000_0000);
    gic.set_target(40, CpuId::Cpu1);
    assert_eq!(gic.distributor_ref().get_target(40), 0b1000_0010);
}

#[test]
fn redistributor_mirror_operations() {
    const TIMER_IRQ: u32 = 30;
    let mut gic = fresh_gic(0);
    gic.set_redistributor_priority(TIMER_IRQ, 0x20);
    assert_eq!(gic.get_redistributor_priority(TIMER_IRQ), 0x20);
    gic.set_redistributor_enable(TIMER_IRQ);
    assert!(gic.redistributor_ref().get_enable(TIMER_IRQ));
    gic.clear_redistributor_enable(TIMER_IRQ);
    assert!(!gic.redistributor_ref().get_enable(TIMER_IRQ));
}

#[test]
fn distributor_pending_via_facade() {
    let mut gic = fresh_gic(0);
    gic.set_pending(64);
    assert!(gic.get_pending(64));
    assert!(!gic.get_pending(65));
    gic.clear_pending(64);
    assert!(!gic.get_pending(64));
}
