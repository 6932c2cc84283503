use gic_core::common::GicError;
use gic_core::gic_dist::{
    GicDistributor, GICD_CTLR_ARE_NS, GICD_CTLR_DISABLE_SECURITY, GICD_CTLR_ENABLE_G0,
    GICD_CTLR_ENABLE_G1NS,
};

#[test]
fn init_gic_sets_global_control_bits() {
    let mut dist = GicDistributor::new();
    assert_eq!(dist.get_ctlr(), 0);
    dist.init_gic();
    assert_eq!(
        dist.get_ctlr(),
        GICD_CTLR_DISABLE_SECURITY | GICD_CTLR_ENABLE_G1NS | GICD_CTLR_ENABLE_G0 | GICD_CTLR_ARE_NS
    );
    assert_eq!(dist.get_ctlr(), 0x63);
}

#[test]
fn enable_set_then_clear_leaves_bit_clear() {
    let mut dist = GicDistributor::new();
    dist.set_enable(42);
    assert!(dist.get_enable(42));
    dist.clear_enable(42);
    assert!(!dist.get_enable(42));
}

#[test]
fn enable_interleaved_unrelated_interrupt_untouched() {
    let mut dist = GicDistributor::new();
    // 42 and 43 share an enable register.
    dist.set_enable(42);
    dist.set_enable(43);
    dist.clear_enable(42);
    assert!(!dist.get_enable(42));
    assert!(dist.get_enable(43));
    // A distant interrupt in another register is untouched too.
    assert!(!dist.get_enable(100));
}

#[test]
fn pending_set_then_get_then_clear() {
    let mut dist = GicDistributor::new();
    assert!(!dist.get_pending(30));
    dist.set_pending(30);
    assert!(dist.get_pending(30));
    dist.clear_pending(30);
    assert!(!dist.get_pending(30));
}

#[test]
fn target_out_of_range_rejected_without_write() {
    let mut dist = GicDistributor::new();
    assert_eq!(dist.set_target(10, 8), Err(GicError::TargetOutOfRange));
    assert_eq!(dist.set_target(10, 255), Err(GicError::TargetOutOfRange));
    assert_eq!(dist.get_target(10), 0);
    assert_eq!(dist.get_ctlr(), 0);
}

#[test]
fn target_is_additive() {
    let mut dist = GicDistributor::new();
    assert_eq!(dist.set_target(10, 0), Ok(()));
    assert_eq!(dist.get_target(10), 0b0000_0001);
    assert_eq!(dist.set_target(10, 3), Ok(()));
    assert_eq!(dist.get_target(10), 0b0000_1001);
    // A neighbour sharing the target register is untouched.
    assert_eq!(dist.get_target(11), 0);
    assert_eq!(dist.get_target(9), 0);
}

#[test]
fn cfg_out_of_range_rejected_without_write() {
    let mut dist = GicDistributor::new();
    assert_eq!(dist.set_cfg(10, 4), Err(GicError::ConfigOutOfRange));
    assert_eq!(dist.set_cfg(10, 100), Err(GicError::ConfigOutOfRange));
    assert_eq!(dist.get_cfg(10), 0);
}

#[test]
fn cfg_in_range_written() {
    let mut dist = GicDistributor::new();
    assert_eq!(dist.set_cfg(10, 2), Ok(()));
    assert_eq!(dist.get_cfg(10), 2);
    assert_eq!(dist.set_cfg(10, 0), Ok(()));
    assert_eq!(dist.get_cfg(10), 0);
    // Neighbours in the same configuration register are untouched.
    assert_eq!(dist.set_cfg(12, 3), Ok(()));
    assert_eq!(dist.get_cfg(11), 0);
    assert_eq!(dist.get_cfg(13), 0);
}

#[test]
fn priority_fields_are_per_interrupt() {
    let mut dist = GicDistributor::new();
    dist.set_priority(30, 0x80);
    dist.set_priority(31, 0x40);
    assert_eq!(dist.get_priority(30), 0x80);
    assert_eq!(dist.get_priority(31), 0x40);
    dist.set_priority(30, 0);
    assert_eq!(dist.get_priority(30), 0);
    assert_eq!(dist.get_priority(31), 0x40);
}

#[test]
fn group_bit_is_per_interrupt() {
    let mut dist = GicDistributor::new();
    dist.set_group(30, true);
    assert_eq!(dist.get_group(30), 1);
    assert_eq!(dist.get_group(31), 0);
    dist.set_group(30, false);
    assert_eq!(dist.get_group(30), 0);
}

#[test]
fn highest_interrupt_identifier_works() {
    let mut dist = GicDistributor::new();
    dist.set_enable(1019);
    assert!(dist.get_enable(1019));
    dist.set_priority(1019, 0xFF);
    assert_eq!(dist.get_priority(1019), 0xFF);
}
