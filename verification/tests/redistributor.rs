use gic_core::common::GicError;
use gic_core::gic_redist::{
    GicRedist, WakerPort, WAKER_CHILDREN_ASLEEP_BIT, WAKER_PROCESSOR_SLEEP_BIT,
};

fn redist_with_asleep_reads(asleep_reads: u32) -> GicRedist {
    GicRedist::new(WakerPort::new(WAKER_PROCESSOR_SLEEP_BIT, asleep_reads))
}

#[test]
fn waker_port_reports_asleep_for_configured_reads() {
    let mut port = WakerPort::new(WAKER_PROCESSOR_SLEEP_BIT, 2);
    assert_eq!(
        port.read(),
        WAKER_PROCESSOR_SLEEP_BIT | WAKER_CHILDREN_ASLEEP_BIT
    );
    assert_eq!(
        port.read(),
        WAKER_PROCESSOR_SLEEP_BIT | WAKER_CHILDREN_ASLEEP_BIT
    );
    assert_eq!(port.read(), WAKER_PROCESSOR_SLEEP_BIT);
    // The read-only status bit cannot be written.
    port.write(WAKER_CHILDREN_ASLEEP_BIT);
    assert_eq!(port.read(), 0);
}

#[test]
fn wake_succeeds_after_exactly_the_reported_reads() {
    // A port that reports children-asleep for 5 reads: the initial read
    // consumes one, polls 1–4 still see the status, poll 5 sees it clear.
    let mut redist = redist_with_asleep_reads(5);
    assert_eq!(redist.init(10), Ok(5));
}

#[test]
fn wake_succeeds_first_poll_when_never_asleep() {
    let mut redist = redist_with_asleep_reads(0);
    assert_eq!(redist.init(10), Ok(1));
}

#[test]
fn wake_times_out_when_status_never_clears() {
    let mut redist = redist_with_asleep_reads(u32::MAX);
    assert_eq!(redist.init(100), Err(GicError::WakeTimeout));
}

#[test]
fn wake_times_out_on_zero_poll_bound() {
    let mut redist = redist_with_asleep_reads(0);
    assert_eq!(redist.init(0), Err(GicError::WakeTimeout));
}

#[test]
fn wake_boundary_between_success_and_timeout() {
    // 8 asleep reads need exactly 8 polls.
    let mut exact = redist_with_asleep_reads(8);
    assert_eq!(exact.init(8), Ok(8));
    let mut short = redist_with_asleep_reads(8);
    assert_eq!(short.init(7), Err(GicError::WakeTimeout));
}

#[test]
fn enable_round_trip() {
    let mut redist = redist_with_asleep_reads(0);
    redist.set_enable(30);
    assert!(redist.get_enable(30));
    redist.clear_enable(30);
    assert!(!redist.get_enable(30));
}

#[test]
fn pending_round_trip() {
    let mut redist = redist_with_asleep_reads(0);
    redist.set_pending(30);
    assert!(redist.get_pending(30));
    assert!(redist.get_redistributor_pending(30));
    assert!(!redist.get_pending(29));
    redist.clear_pending(30);
    assert!(!redist.get_pending(30));
    assert!(!redist.get_redistributor_pending(30));
}

#[test]
fn priority_round_trip() {
    let mut redist = redist_with_asleep_reads(0);
    redist.set_priority(30, 0);
    assert_eq!(redist.get_priority(30), 0);
    redist.set_priority(30, 0xA5);
    assert_eq!(redist.get_priority(30), 0xA5);
    assert_eq!(redist.get_priority(31), 0);
}

#[test]
fn interrupt_config_validation() {
    let mut redist = redist_with_asleep_reads(0);
    assert_eq!(
        redist.set_interrupt_config(30, 4),
        Err(GicError::ConfigOutOfRange)
    );
    assert_eq!(redist.get_cfg(30), 0);
    assert_eq!(redist.set_interrupt_config(30, 2), Ok(()));
    assert_eq!(redist.get_cfg(30), 2);
    assert_eq!(redist.set_cfg(30, 5), Err(GicError::ConfigOutOfRange));
    assert_eq!(redist.get_cfg(30), 2);
    assert_eq!(redist.set_cfg(30, 0), Ok(()));
    assert_eq!(redist.get_cfg(30), 0);
}

#[test]
fn group_bit_round_trip() {
    let mut redist = redist_with_asleep_reads(0);
    redist.set_group(30, true);
    assert!(redist.get_pending(30) == false);
    redist.set_pending(30);
    // The group write and the pending write live in different windows.
    assert!(redist.get_pending(30));
}
