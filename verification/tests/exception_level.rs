use gic_core::exception::{
    get_current_el, init_exception_table, ExceptionContext, ExceptionLevel,
};
use gic_core::sysreg::SysRegs;

#[test]
fn exception_level_decoding() {
    assert_eq!(get_current_el(&SysRegs::new(0b0000, true)), ExceptionLevel::EL0);
    assert_eq!(get_current_el(&SysRegs::new(0b0100, true)), ExceptionLevel::EL1);
    assert_eq!(get_current_el(&SysRegs::new(0b1000, true)), ExceptionLevel::EL2);
    assert_eq!(get_current_el(&SysRegs::new(0b1100, true)), ExceptionLevel::EL3);
    // Bits outside 3:2 are ignored.
    assert_eq!(
        get_current_el(&SysRegs::new(0xFFF0_0104, true)),
        ExceptionLevel::EL1
    );
}

#[test]
fn vector_table_installation() {
    let mut regs = SysRegs::new(1 << 2, true);
    assert_eq!(regs.read_vbar(), 0);
    init_exception_table(&mut regs, 0x0004_0800);
    assert_eq!(regs.read_vbar(), 0x0004_0800);
    // The installation touches nothing else.
    assert_eq!(regs.read_icc_sre(), 0);
    assert_eq!(regs.read_daif(), 0x2);
}

#[test]
fn exception_context_snapshot_is_readable() {
    let mut gprs = [0u64; 31];
    gprs[0] = 0xAAAA;
    gprs[30] = 0xBBBB;
    let ctx = ExceptionContext::new(gprs, 0x4000_0000, 0x3C5);
    assert_eq!(ctx.gpr(0), 0xAAAA);
    assert_eq!(ctx.gpr(1), 0);
    assert_eq!(ctx.gpr(30), 0xBBBB);
    assert_eq!(ctx.elr_el1(), 0x4000_0000);
    assert_eq!(ctx.spsr_el1(), 0x3C5);
}

#[test]
fn sre_enable_honoured_and_ignored() {
    let mut supported = SysRegs::new(1 << 2, true);
    assert!(supported.enable_sre().is_ok());
    assert_eq!(supported.read_icc_sre() & 1, 1);

    let mut unsupported = SysRegs::new(1 << 2, false);
    assert!(unsupported.enable_sre().is_err());
    assert_eq!(unsupported.read_icc_sre(), 0);
}
