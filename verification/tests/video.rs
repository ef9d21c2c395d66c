use bsp_loader::video::{Clock, Format, Interlace, Latch};
use bsp_loader::video::{
    display_interrupt, field_base, vertical_timing_a, VideoDriver, VideoInterface, ViRegister, ViWrite,
};
use bsp_loader::video::ViRegister::{
    BottomLeftFieldBase, BurstBlankingEvenField, BurstBlankingOddField, ClockSelect,
    DisplayConfiguration, DisplayInterrupt0, DisplayInterrupt1, DisplayInterrupt2,
    DisplayInterrupt3, HorizontalScaling, HorizontalTimingA, HorizontalTimingB, TopLeftFieldBase,
    VerticalTimingA, VerticalTimingBEvenField, VerticalTimingBOddField,
};

fn values(w: &[ViWrite]) -> Vec<(ViRegister, u32)> {
    w.iter().map(|x| (x.register, x.value)).collect()
}

#[test]
fn ntsc_480i_register_values() {
    let mut d = VideoDriver::new(VideoInterface::new());
    let w = d.configure_for_ntsc_480i(0x8010_0000);
    assert_eq!(
        values(&w),
        vec![
            (DisplayConfiguration, 0x2),
            (VerticalTimingA, 0xf06),
            (HorizontalTimingA, 0x4769_01ad),
            (HorizontalTimingB, 0x02ea_5140),
            (VerticalTimingBOddField, 0x0003_0018),
            (VerticalTimingBEvenField, 0x0002_0019),
            (BurstBlankingOddField, 0x410c_410c),
            (BurstBlankingEvenField, 0x40ed_40ed),
            (TopLeftFieldBase, 0x0010_0000),
            (BottomLeftFieldBase, 0x0010_0500),
            (DisplayInterrupt0, 0x10f0_0281),
            (DisplayInterrupt1, 0x11f7_0281),
            (DisplayInterrupt2, 0),
            (DisplayInterrupt3, 0),
            (HorizontalScaling, 0x2850_0100),
            (ClockSelect, 0),
            (DisplayConfiguration, 0x1),
        ]
    );
}

#[test]
fn ntsc_480p_register_values() {
    let mut d = VideoDriver::new(VideoInterface::new());
    let w = d.configure_for_ntsc_480p(0x8010_0000);
    assert_eq!(
        values(&w),
        vec![
            (DisplayConfiguration, 0x2),
            (VerticalTimingA, 0x1e0c),
            (HorizontalTimingA, 0x4769_01ad),
            (HorizontalTimingB, 0x02ea_5140),
            (VerticalTimingBOddField, 0x0012_0024),
            (VerticalTimingBEvenField, 0x0012_0024),
            (BurstBlankingOddField, 0x81d8_81d8),
            (BurstBlankingEvenField, 0x81d8_81d8),
            (TopLeftFieldBase, 0x0010_0000),
            (BottomLeftFieldBase, 0x0010_0000),
            (DisplayInterrupt0, 0x11e0_0281),
            (DisplayInterrupt1, 0x13ed_0281),
            (DisplayInterrupt2, 0),
            (DisplayInterrupt3, 0),
            (HorizontalScaling, 0x2828_0100),
            (ClockSelect, 1),
            (DisplayConfiguration, 0x5),
        ]
    );
}

#[test]
fn register_addresses() {
    assert_eq!(ViRegister::VerticalTimingA.address(), 0xcc00_2000);
    assert_eq!(ViRegister::DisplayConfiguration.address(), 0xcc00_2002);
    assert_eq!(ViRegister::BottomLeftFieldBase.address(), 0xcc00_2024);
    assert_eq!(ViRegister::HorizontalScaling.address(), 0xcc00_2048);
    assert_eq!(ViRegister::ClockSelect.address(), 0xcc00_206c);
    assert!(ViRegister::ClockSelect.is_16_bit());
    assert!(!ViRegister::DisplayInterrupt0.is_16_bit());
}

#[test]
fn field_packing() {
    assert_eq!(vertical_timing_a(6, 240), 0xf06);
    // Fields are cut to their width.
    assert_eq!(vertical_timing_a(0x1f, 0), 0xf);
    assert_eq!(display_interrupt(641, 240, 1, 0), 0x10f0_0281);
    assert_eq!(field_base(0xff12_3456, 0, 1), 0x1012_3456);
}

#[test]
fn display_settings_round_trip_through_their_bits() {
    for v in 0..2u8 {
        assert_eq!(Interlace::from_u1(v).as_u1(), v);
        assert_eq!(Clock::from_u1(v).as_u1(), v);
    }
    for v in 0..4u8 {
        assert_eq!(Latch::from_u2(v).as_u2(), v);
        assert_eq!(Format::from_u2(v).as_u2(), v);
    }
    assert_eq!(Interlace::from_u1(1), Interlace::NonInterlaced);
    assert_eq!(Latch::from_u2(2), Latch::OnForTwoFields);
    assert_eq!(Format::Mpal.as_u2(), 2);
    assert_eq!(Clock::K54MHz.as_u1(), 1);
}
