use bsp_loader::peripheral_access::di::{command_buffer0, immediate_buffer, status};
use bsp_loader::peripheral_access::{Peripherals, CP, DI, PI};

#[test]
fn register_block_addresses() {
    assert_eq!(CP::ptr(), 0xcc00_0000);
    assert_eq!(PI::ptr(), 0xcc00_3000);
    assert_eq!(DI::ptr(), 0xcc00_6000);
    let _p = Peripherals::steal();
}

#[test]
fn status_fields_read_and_write() {
    let r = status::R::from_bits(0b101_0100);
    assert!(r.break_complete_asserted().bit_is_set());
    assert!(r.transfer_complete_asserted().bit());
    assert!(r.device_error_asserted().bit());
    assert!(r.break_complete_mask().bit_is_clear());
    assert!(!r.break_pending().bit());
    let mut w = status::W::from_bits(0);
    w.ack_transfer_complete().set_bit();
    w.ack_device_error().set_bit();
    w.request_break().bit(true);
    assert_eq!(w.to_bits(), 0b001_0101);
    w.ack_device_error().clear_bit();
    assert_eq!(w.to_bits(), 0b001_0001);
}

#[test]
fn command_buffer_fields() {
    let mut w = command_buffer0::W::from_bits(0);
    w.command().bits(0xa8);
    w.subcommand2().bits(0x40);
    assert_eq!(w.to_bits(), 0xa800_0040);
    let r = command_buffer0::R::from_bits(0x1234_5678);
    assert_eq!(r.command().bits(), 0x12);
    assert_eq!(r.subcommand1().bits(), 0x34);
    assert_eq!(r.subcommand2().bits(), 0x5678);
}

#[test]
fn immediate_buffer_fields() {
    let r = immediate_buffer::R::from_bits(0x1122_3344);
    assert_eq!(r.reg_val0().bits(), 0x11);
    assert_eq!(r.reg_val3().bits(), 0x44);
    let mut w = immediate_buffer::W::from_bits(0);
    w.reg_val1().bits(0xab);
    assert_eq!(w.to_bits(), 0x00ab_0000);
}
