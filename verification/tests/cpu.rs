use bsp_loader::cpu::{
    disable_external_interrupts, enable_external_interrupts, flush_data_cache_blocks,
    restore_external_interrupts, time_base, Endian, ExceptionPrefix, MachineState, PrivilegeLevel,
};

#[test]
fn msr_enum_bits() {
    assert_eq!(Endian::from_u1(0), Endian::Big);
    assert_eq!(Endian::from_u1(1), Endian::Little);
    assert_eq!(Endian::Little.as_u1(), 1);
    assert_eq!(ExceptionPrefix::from_u1(1), ExceptionPrefix::High);
    assert_eq!(ExceptionPrefix::Low.as_u1(), 0);
    assert_eq!(PrivilegeLevel::from_u1(0), PrivilegeLevel::Supervisor);
    assert_eq!(PrivilegeLevel::User.as_u1(), 1);
}

#[test]
fn msr_fields_are_read_from_their_bits() {
    let msr = MachineState::from_u32(0x0001_c041);
    assert_eq!(msr.endian(), Endian::Little);
    assert_eq!(msr.exception_prefix(), ExceptionPrefix::High);
    assert_eq!(msr.privilege_level(), PrivilegeLevel::User);
    assert!(msr.external_interrupts_enabled());
    assert_eq!(msr.exception_endian(), Endian::Little);
    assert_eq!(msr.as_u32(), 0x0001_c041);
    let zero = MachineState::from_u32(0);
    assert_eq!(zero.endian(), Endian::Big);
    assert!(!zero.external_interrupts_enabled());
}

#[test]
fn external_interrupt_bit_is_bit_15() {
    let msr = MachineState::from_u32(0x2032);
    assert!(!msr.external_interrupts_enabled());
    assert_eq!(msr.with_external_interrupts_enabled(true).as_u32(), 0xa032);
    assert_eq!(
        MachineState::from_u32(0xffff_ffff).with_external_interrupts_enabled(false).as_u32(),
        0xffff_7fff
    );
}

#[test]
fn disabling_then_restoring_keeps_the_register() {
    for bits in [0u32, 0x8000, 0xa032, 0x2032, 0xffff_ffff, 0x1234_5678] {
        let msr = MachineState::from_u32(bits);
        let (disabled, was_enabled) = disable_external_interrupts(msr);
        assert!(!disabled.external_interrupts_enabled());
        assert_eq!(was_enabled, bits & 0x8000 != 0);
        let restored = restore_external_interrupts(disabled, was_enabled);
        assert_eq!(restored.as_u32(), bits);
    }
    // Interrupts turned on in between are turned off again when they were off before.
    assert_eq!(restore_external_interrupts(MachineState::from_u32(0xa032), false).as_u32(), 0x2032);
    assert_eq!(restore_external_interrupts(MachineState::from_u32(0x2032), true).as_u32(), 0xa032);
    assert_eq!(enable_external_interrupts(MachineState::from_u32(0)).as_u32(), 0x8000);
}

#[test]
fn time_base_joins_halves_when_stable() {
    assert_eq!(time_base(1, 2, 1), Some(0x1_0000_0002));
    assert_eq!(time_base(0xffff_ffff, 0xffff_ffff, 0xffff_ffff), Some(u64::MAX));
    assert_eq!(time_base(1, 0xffff_ffff, 2), None);
}

#[test]
fn cache_blocks_step_by_32_bytes() {
    assert_eq!(flush_data_cache_blocks(0x8000_0000, 3), vec![0x8000_0000, 0x8000_0020, 0x8000_0040]);
    assert!(flush_data_cache_blocks(0x100, 0).is_empty());
}
