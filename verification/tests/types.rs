use gic_core::common::{CpuId, GicError, InterruptType};

#[test]
fn trigger_mode_encodings() {
    assert_eq!(InterruptType::LevelSensitive.encoding(), 0);
    assert_eq!(InterruptType::EdgeTriggered.encoding(), 2);
}

#[test]
fn cpu_identifiers_cover_all_eight_targets() {
    let cpus = [
        CpuId::Cpu0,
        CpuId::Cpu1,
        CpuId::Cpu2,
        CpuId::Cpu3,
        CpuId::Cpu4,
        CpuId::Cpu5,
        CpuId::Cpu6,
        CpuId::Cpu7,
    ];
    for (expected, cpu) in cpus.iter().enumerate() {
        assert_eq!(cpu.index() as usize, expected);
        assert!(cpu.index() <= 7);
    }
}

#[test]
fn error_variants_are_distinct() {
    let errors = [
        GicError::TargetOutOfRange,
        GicError::ConfigOutOfRange,
        GicError::WakeTimeout,
        GicError::SreWriteIgnored,
        GicError::UnexpectedPending,
    ];
    for (i, a) in errors.iter().enumerate() {
        for (j, b) in errors.iter().enumerate() {
            assert_eq!(a == b, i == j);
        }
    }
}
