use bsp_loader::dvd::{
    Access,
    Command, CommandA, Cover, DiWrite, DmaPoll, DvdDriver, DvdError, DvdInterface, Status,
};

#[test]
fn read_writes_registers_in_order() {
    let mut d = DvdDriver::new(DvdInterface::new());
    let w = d.read(0x1000, 0x8000_0040, 64);
    assert_eq!(
        w,
        vec![
            DiWrite::Status(Status { bits: 0x54 }),
            DiWrite::CommandA(CommandA { bits: 0xa800_0000 }),
            DiWrite::CommandB(0x400),
            DiWrite::CommandC(64),
            DiWrite::DmaAddress(0x8000_0040),
            DiWrite::DmaLength(64),
            DiWrite::Control(bsp_loader::dvd::Control { bits: 0x3 }),
        ]
    );
    assert_eq!(w[0].address(), 0xcc00_6000);
    assert_eq!(w[1].address(), 0xcc00_6008);
    assert_eq!(w[6].address(), 0xcc00_601c);
    assert_eq!(w[2].value(), 0x400);
    assert_eq!(d.read_maybe_uninit(8, 0x20, 32)[2], DiWrite::CommandB(2));
}

#[test]
fn commands() {
    assert_eq!(
        DvdDriver::inquiry_command(),
        Command { a: CommandA { bits: 0x1200_0000 }, b: 0, c: 0x20 }
    );
    assert_eq!(
        DvdDriver::read_disc_id_command(),
        Command { a: CommandA { bits: 0xa800_0040 }, b: 0, c: 32 }
    );
    assert_eq!(CommandA::new(0xa8, 0x12, 0x3456).bits, 0xa812_3456);
    assert_eq!(CommandA::new(0xa8, 0, 0).command(), 0xa8);
    let mut d = DvdDriver::new(DvdInterface::new());
    assert_eq!(d.inquiry(0x100)[1], DiWrite::CommandA(CommandA { bits: 0x1200_0000 }));
    assert_eq!(d.read_disc_id(0x100)[3], DiWrite::CommandC(32));
}

#[test]
fn poll_outcomes() {
    assert_eq!(DvdDriver::dma_poll(Status { bits: 0 }), DmaPoll::Pending);
    assert_eq!(DvdDriver::dma_poll(Status { bits: 0x10 }), DmaPoll::Done(Status { bits: 0x10 }));
    assert_eq!(DvdDriver::dma_poll(Status { bits: 0x04 }), DmaPoll::Failed(Status { bits: 0x04 }));
    assert_eq!(DvdDriver::dma_poll(Status { bits: 0x14 }), DmaPoll::Failed(Status { bits: 0x04 }));
    assert_eq!(DvdDriver::dma_result(DmaPoll::Pending), None);
    assert_eq!(DvdDriver::dma_result(DmaPoll::Done(Status { bits: 0x10 })), Some(Ok(())));
    assert_eq!(
        DvdDriver::dma_result(DmaPoll::Failed(Status { bits: 0x04 })),
        Some(Err(DvdError::Placeholder))
    );
    assert_eq!(DvdError::Placeholder.to_string(), "DVD Error");
}

#[test]
fn status_flags_round_trip() {
    let s = Status::zero().with_flag(4, true).with_flag(2, true).with_flag(4, false);
    assert_eq!(s.bits, 0x04);
    assert!(s.device_error_interrupt());
    assert!(!s.transfer_complete_interrupt());
    assert!(!s.break_complete_interrupt());
    assert!(Status { bits: 0x40 }.break_complete_interrupt());
}

#[test]
fn cover_and_reset() {
    let mut d = DvdDriver::new(DvdInterface::new());
    assert_eq!(d.wait_for_cover(true), DiWrite::Cover(Cover { bits: 0x6 }));
    assert!(DvdDriver::cover_reached(true, Cover { bits: 0x7 }));
    assert!(!DvdDriver::cover_reached(true, Cover { bits: 0x6 }));
    assert!(DvdDriver::cover_reached(false, Cover { bits: 0x0 }));
    assert_eq!(DvdDriver::reset_control_values(0xffff_ffff), (0xffff_fffb, 0xffff_ffff));
    assert_eq!(DvdDriver::reset_control_values(0), (1, 5));
}

#[test]
fn immediate_buffer_bytes() {
    let b = bsp_loader::dvd::ImmediateBuffer::new(0x11, 0x22, 0x33, 0x44);
    assert_eq!(b.bits, 0x1122_3344);
    assert_eq!(b.reg_val(24), 0x11);
    assert_eq!(b.reg_val(0), 0x44);
    assert_eq!(
        bsp_loader::dvd::Control::new(true, false, bsp_loader::dvd::Access::Write).bits,
        0x5
    );
}

#[test]
fn access_direction_bit() {
    assert_eq!(Access::from_u1(0), Access::Read);
    assert_eq!(Access::from_u1(1), Access::Write);
    assert_eq!(Access::Read.as_u1(), 0);
    assert_eq!(Access::Write.as_u1(), 1);
}
