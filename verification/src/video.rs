//! The video interface: its register layout and the register values that configure NTSC
//! output. The caller writes the values, in order, to the registers they name.
use vstd::prelude::*;

use crate::peripheral_access::{set_field, spec_set_field};

verus! {

/// Base address of the video interface registers.
pub const VI_BASE: usize = 0xcc00_2000;

/// Size in bytes of the video interface register block.
pub const VI_SIZE: usize = 0x70;

/// A register of the video interface that the configuration writes.
#[derive(Clone, Copy, Debug, PartialEq, Eq, Structural)]
pub enum ViRegister {
    VerticalTimingA,
    DisplayConfiguration,
    HorizontalTimingA,
    HorizontalTimingB,
    VerticalTimingBOddField,
    VerticalTimingBEvenField,
    BurstBlankingOddField,
    BurstBlankingEvenField,
    TopLeftFieldBase,
    BottomLeftFieldBase,
    DisplayInterrupt0,
    DisplayInterrupt1,
    DisplayInterrupt2,
    DisplayInterrupt3,
    HorizontalScaling,
    ClockSelect,
}

impl ViRegister {
    /// Byte offset of the register in the block.
    pub open spec fn spec_offset(self) -> usize {
        match self {
            ViRegister::VerticalTimingA => 0x00,
            ViRegister::DisplayConfiguration => 0x02,
            ViRegister::HorizontalTimingA => 0x04,
            ViRegister::HorizontalTimingB => 0x08,
            ViRegister::VerticalTimingBOddField => 0x0c,
            ViRegister::VerticalTimingBEvenField => 0x10,
            ViRegister::BurstBlankingOddField => 0x14,
            ViRegister::BurstBlankingEvenField => 0x18,
            ViRegister::TopLeftFieldBase => 0x1c,
            ViRegister::BottomLeftFieldBase => 0x24,
            ViRegister::DisplayInterrupt0 => 0x30,
            ViRegister::DisplayInterrupt1 => 0x34,
            ViRegister::DisplayInterrupt2 => 0x38,
            ViRegister::DisplayInterrupt3 => 0x3c,
            ViRegister::HorizontalScaling => 0x48,
            ViRegister::ClockSelect => 0x6c,
        }
    }

    /// Whether the register is 16 bits wide (the others are 32).
    pub open spec fn spec_is_16_bit(self) -> bool {
        match self {
            ViRegister::VerticalTimingA | ViRegister::DisplayConfiguration
            | ViRegister::ClockSelect => true,
            _ => false,
        }
    }

    /// Address of the register.
    pub fn address(self) -> (r: usize)
        ensures
            r == VI_BASE + self.spec_offset(),
            r + (if self.spec_is_16_bit() { 2int } else { 4int }) <= VI_BASE + VI_SIZE,
    {
        let offset: usize = match self {
            ViRegister::VerticalTimingA => 0x00,
            ViRegister::DisplayConfiguration => 0x02,
            ViRegister::HorizontalTimingA => 0x04,
            ViRegister::HorizontalTimingB => 0x08,
            ViRegister::VerticalTimingBOddField => 0x0c,
            ViRegister::VerticalTimingBEvenField => 0x10,
            ViRegister::BurstBlankingOddField => 0x14,
            ViRegister::BurstBlankingEvenField => 0x18,
            ViRegister::TopLeftFieldBase => 0x1c,
            ViRegister::BottomLeftFieldBase => 0x24,
            ViRegister::DisplayInterrupt0 => 0x30,
            ViRegister::DisplayInterrupt1 => 0x34,
            ViRegister::DisplayInterrupt2 => 0x38,
            ViRegister::DisplayInterrupt3 => 0x3c,
            ViRegister::HorizontalScaling => 0x48,
            ViRegister::ClockSelect => 0x6c,
        };
        VI_BASE + offset
    }

    /// Whether the register is 16 bits wide (the others are 32).
    pub fn is_16_bit(self) -> (r: bool)
        ensures
            r == self.spec_is_16_bit(),
    {
        match self {
            ViRegister::VerticalTimingA | ViRegister::DisplayConfiguration
            | ViRegister::ClockSelect => true,
            _ => false,
        }
    }
}

/// A value to write to a register; a 16-bit register takes the low half.
#[derive(Clone, Copy, Debug, PartialEq, Eq, Structural)]
pub struct ViWrite {
    pub register: ViRegister,
    pub value: u32,
}

/// Interlacing of the display configuration.
pub const INTERLACED: u32 = 0;
pub const NON_INTERLACED: u32 = 1;

/// Video format of the display configuration.
pub const FORMAT_NTSC: u32 = 0;

/// Clock selection: 27 MHz or 54 MHz.
pub const CLOCK_27MHZ: u32 = 0;
pub const CLOCK_54MHZ: u32 = 1;

/// Interlacing of the display configuration, stored in one bit.
#[derive(Clone, Copy, Debug, PartialEq, Eq, Structural)]
pub enum Interlace {
    Interlaced,
    NonInterlaced,
}

impl Interlace {
    /// The bit the setting is stored as.
    pub open spec fn spec_as_u1(self) -> u8 {
        match self {
            Interlace::Interlaced => 0,
            Interlace::NonInterlaced => 1,
        }
    }

    /// The setting stored as `value`.
    pub fn from_u1(value: u8) -> (r: Self)
        requires
            value < 2,
        ensures
            r.spec_as_u1() == value,
    {
        if value == 0 { Interlace::Interlaced } else { Interlace::NonInterlaced }
    }

    /// The bit the setting is stored as.
    pub fn as_u1(self) -> (r: u8)
        ensures
            r == self.spec_as_u1(),
            r < 2,
    {
        match self {
            Interlace::Interlaced => 0,
            Interlace::NonInterlaced => 1,
        }
    }
}

/// When a display latch is armed, stored in two bits.
#[derive(Clone, Copy, Debug, PartialEq, Eq, Structural)]
pub enum Latch {
    Off,
    OnForOneField,
    OnForTwoFields,
    AlwaysOn,
}

impl Latch {
    /// The bits the setting is stored as.
    pub open spec fn spec_as_u2(self) -> u8 {
        match self {
            Latch::Off => 0,
            Latch::OnForOneField => 1,
            Latch::OnForTwoFields => 2,
            Latch::AlwaysOn => 3,
        }
    }

    /// The setting stored as `value`.
    pub fn from_u2(value: u8) -> (r: Self)
        requires
            value < 4,
        ensures
            r.spec_as_u2() == value,
    {
        if value == 0 {
            Latch::Off
        } else if value == 1 {
            Latch::OnForOneField
        } else if value == 2 {
            Latch::OnForTwoFields
        } else {
            Latch::AlwaysOn
        }
    }

    /// The bits the setting is stored as.
    pub fn as_u2(self) -> (r: u8)
        ensures
            r == self.spec_as_u2(),
            r < 4,
    {
        match self {
            Latch::Off => 0,
            Latch::OnForOneField => 1,
            Latch::OnForTwoFields => 2,
            Latch::AlwaysOn => 3,
        }
    }
}

/// The video format, stored in two bits.
#[derive(Clone, Copy, Debug, PartialEq, Eq, Structural)]
pub enum Format {
    Ntsc,
    Pal,
    Mpal,
    Debug,
}

impl Format {
    /// The bits the format is stored as.
    pub open spec fn spec_as_u2(self) -> u8 {
        match self {
            Format::Ntsc => 0,
            Format::Pal => 1,
            Format::Mpal => 2,
            Format::Debug => 3,
        }
    }

    /// The format stored as `value`.
    pub fn from_u2(value: u8) -> (r: Self)
        requires
            value < 4,
        ensures
            r.spec_as_u2() == value,
    {
        if value == 0 {
            Format::Ntsc
        } else if value == 1 {
            Format::Pal
        } else if value == 2 {
            Format::Mpal
        } else {
            Format::Debug
        }
    }

    /// The bits the format is stored as.
    pub fn as_u2(self) -> (r: u8)
        ensures
            r == self.spec_as_u2(),
            r < 4,
    {
        match self {
            Format::Ntsc => 0,
            Format::Pal => 1,
            Format::Mpal => 2,
            Format::Debug => 3,
        }
    }
}

/// The video clock, stored in one bit.
#[derive(Clone, Copy, Debug, PartialEq, Eq, Structural)]
pub enum Clock {
    K27MHz,
    K54MHz,
}

impl Clock {
    /// The bit the clock is stored as.
    pub open spec fn spec_as_u1(self) -> u8 {
        match self {
            Clock::K27MHz => 0,
            Clock::K54MHz => 1,
        }
    }

    /// The clock stored as `value`.
    pub fn from_u1(value: u8) -> (r: Self)
        requires
            value < 2,
        ensures
            r.spec_as_u1() == value,
    {
        if value == 0 { Clock::K27MHz } else { Clock::K54MHz }
    }

    /// The bit the clock is stored as.
    pub fn as_u1(self) -> (r: u8)
        ensures
            r == self.spec_as_u1(),
            r < 2,
    {
        match self {
            Clock::K27MHz => 0,
            Clock::K54MHz => 1,
        }
    }
}

/// Each setting is stored as a distinct value, so reading back what was stored gives the setting.
pub proof fn lemma_settings_round_trip(i: Interlace, l: Latch, f: Format, c: Clock)
    ensures
        forall|j: Interlace| j.spec_as_u1() == i.spec_as_u1() ==> j == i,
        forall|m: Latch| m.spec_as_u2() == l.spec_as_u2() ==> m == l,
        forall|g: Format| g.spec_as_u2() == f.spec_as_u2() ==> g == f,
        forall|d: Clock| d.spec_as_u1() == c.spec_as_u1() ==> d == c,
{
}

/// The vertical timing a register built from zero field by field, lowest field first.
pub open spec fn spec_vertical_timing_a(equalization_pulse_half_lines: u32, active_video_lines: u32) -> u32 {
    spec_set_field(spec_set_field(0u32, 0, 0xf, equalization_pulse_half_lines), 4, 0x3ff, active_video_lines)
}

/// The vertical timing a register with the given fields; each is cut to its width.
pub fn vertical_timing_a(equalization_pulse_half_lines: u32, active_video_lines: u32) -> (r: u32)
    ensures
        r == spec_vertical_timing_a(equalization_pulse_half_lines, active_video_lines),
{
    let bits: u32 = 0;
    let bits = set_field(bits, 0, 0xf, equalization_pulse_half_lines);
    let bits = set_field(bits, 4, 0x3ff, active_video_lines);
    bits
}

/// The display configuration register built from zero field by field, lowest field first.
pub open spec fn spec_display_configuration(enable: u32, reset: u32, interlace: u32, three_d_display: u32, latch_0_enable: u32, latch_1_enable: u32, format: u32) -> u32 {
    spec_set_field(spec_set_field(spec_set_field(spec_set_field(spec_set_field(spec_set_field(spec_set_field(0u32, 0, 0x1, enable), 1, 0x1, reset), 2, 0x1, interlace), 3, 0x1, three_d_display), 4, 0x3, latch_0_enable), 6, 0x3, latch_1_enable), 8, 0x3, format)
}

/// The display configuration register with the given fields; each is cut to its width.
pub fn display_configuration(enable: u32, reset: u32, interlace: u32, three_d_display: u32, latch_0_enable: u32, latch_1_enable: u32, format: u32) -> (r: u32)
    ensures
        r == spec_display_configuration(enable, reset, interlace, three_d_display, latch_0_enable, latch_1_enable, format),
{
    let bits: u32 = 0;
    let bits = set_field(bits, 0, 0x1, enable);
    let bits = set_field(bits, 1, 0x1, reset);
    let bits = set_field(bits, 2, 0x1, interlace);
    let bits = set_field(bits, 3, 0x1, three_d_display);
    let bits = set_field(bits, 4, 0x3, latch_0_enable);
    let bits = set_field(bits, 6, 0x3, latch_1_enable);
    let bits = set_field(bits, 8, 0x3, format);
    bits
}

/// The horizontal timing a register built from zero field by field, lowest field first.
pub open spec fn spec_horizontal_timing_a(halfline_width: u32, hsync_start_to_color_burst_end: u32, hsync_start_to_color_burst_start: u32) -> u32 {
    spec_set_field(spec_set_field(spec_set_field(0u32, 0, 0x1ff, halfline_width), 16, 0x7f, hsync_start_to_color_burst_end), 24, 0x7f, hsync_start_to_color_burst_start)
}

/// The horizontal timing a register with the given fields; each is cut to its width.
pub fn horizontal_timing_a(halfline_width: u32, hsync_start_to_color_burst_end: u32, hsync_start_to_color_burst_start: u32) -> (r: u32)
    ensures
        r == spec_horizontal_timing_a(halfline_width, hsync_start_to_color_burst_end, hsync_start_to_color_burst_start),
{
    let bits: u32 = 0;
    let bits = set_field(bits, 0, 0x1ff, halfline_width);
    let bits = set_field(bits, 16, 0x7f, hsync_start_to_color_burst_end);
    let bits = set_field(bits, 24, 0x7f, hsync_start_to_color_burst_start);
    bits
}

/// The horizontal timing b register built from zero field by field, lowest field first.
pub open spec fn spec_horizontal_timing_b(hsync_width: u32, hsync_start_to_hblank_end: u32, half_line_to_hblank_start: u32) -> u32 {
    spec_set_field(spec_set_field(spec_set_field(0u32, 0, 0x7f, hsync_width), 7, 0x3ff, hsync_start_to_hblank_end), 17, 0x3ff, half_line_to_hblank_start)
}

/// The horizontal timing b register with the given fields; each is cut to its width.
pub fn horizontal_timing_b(hsync_width: u32, hsync_start_to_hblank_end: u32, half_line_to_hblank_start: u32) -> (r: u32)
    ensures
        r == spec_horizontal_timing_b(hsync_width, hsync_start_to_hblank_end, half_line_to_hblank_start),
{
    let bits: u32 = 0;
    let bits = set_field(bits, 0, 0x7f, hsync_width);
    let bits = set_field(bits, 7, 0x3ff, hsync_start_to_hblank_end);
    let bits = set_field(bits, 17, 0x3ff, half_line_to_hblank_start);
    bits
}

/// The vertical timing b register built from zero field by field, lowest field first.
pub open spec fn spec_vertical_timing_b(pre_blanking_half_lines: u32, post_blanking_half_lines: u32) -> u32 {
    spec_set_field(spec_set_field(0u32, 0, 0x3ff, pre_blanking_half_lines), 16, 0x3ff, post_blanking_half_lines)
}

/// The vertical timing b register with the given fields; each is cut to its width.
pub fn vertical_timing_b(pre_blanking_half_lines: u32, post_blanking_half_lines: u32) -> (r: u32)
    ensures
        r == spec_vertical_timing_b(pre_blanking_half_lines, post_blanking_half_lines),
{
    let bits: u32 = 0;
    let bits = set_field(bits, 0, 0x3ff, pre_blanking_half_lines);
    let bits = set_field(bits, 16, 0x3ff, post_blanking_half_lines);
    bits
}

/// The burst blanking register built from zero field by field, lowest field first.
pub open spec fn spec_burst_blanking(start_a: u32, end_a: u32, start_b: u32, end_b: u32) -> u32 {
    spec_set_field(spec_set_field(spec_set_field(spec_set_field(0u32, 0, 0x1f, start_a), 5, 0x7ff, end_a), 16, 0x1f, start_b), 21, 0x7ff, end_b)
}

/// The burst blanking register with the given fields; each is cut to its width.
pub fn burst_blanking(start_a: u32, end_a: u32, start_b: u32, end_b: u32) -> (r: u32)
    ensures
        r == spec_burst_blanking(start_a, end_a, start_b, end_b),
{
    let bits: u32 = 0;
    let bits = set_field(bits, 0, 0x1f, start_a);
    let bits = set_field(bits, 5, 0x7ff, end_a);
    let bits = set_field(bits, 16, 0x1f, start_b);
    let bits = set_field(bits, 21, 0x7ff, end_b);
    bits
}

/// The field base register built from zero field by field, lowest field first.
pub open spec fn spec_field_base(address: u32, horizontal_offset: u32, shift_address_left_five: u32) -> u32 {
    spec_set_field(spec_set_field(spec_set_field(0u32, 0, 0xffffff, address), 24, 0xf, horizontal_offset), 28, 0x1, shift_address_left_five)
}

/// The field base register with the given fields; each is cut to its width.
pub fn field_base(address: u32, horizontal_offset: u32, shift_address_left_five: u32) -> (r: u32)
    ensures
        r == spec_field_base(address, horizontal_offset, shift_address_left_five),
{
    let bits: u32 = 0;
    let bits = set_field(bits, 0, 0xffffff, address);
    let bits = set_field(bits, 24, 0xf, horizontal_offset);
    let bits = set_field(bits, 28, 0x1, shift_address_left_five);
    bits
}

/// The display interrupt register built from zero field by field, lowest field first.
pub open spec fn spec_display_interrupt(horizontal_position: u32, vertical_position: u32, interrupt_enable: u32, interrupt_status: u32) -> u32 {
    spec_set_field(spec_set_field(spec_set_field(spec_set_field(0u32, 0, 0x7ff, horizontal_position), 16, 0x7ff, vertical_position), 28, 0x1, interrupt_enable), 31, 0x1, interrupt_status)
}

/// The display interrupt register with the given fields; each is cut to its width.
pub fn display_interrupt(horizontal_position: u32, vertical_position: u32, interrupt_enable: u32, interrupt_status: u32) -> (r: u32)
    ensures
        r == spec_display_interrupt(horizontal_position, vertical_position, interrupt_enable, interrupt_status),
{
    let bits: u32 = 0;
    let bits = set_field(bits, 0, 0x7ff, horizontal_position);
    let bits = set_field(bits, 16, 0x7ff, vertical_position);
    let bits = set_field(bits, 28, 0x1, interrupt_enable);
    let bits = set_field(bits, 31, 0x1, interrupt_status);
    bits
}

/// The horizontal scaling register built from zero field by field, lowest field first.
pub open spec fn spec_horizontal_scaling(step_size_u1_8: u32, enable: u32, stride_per_half_line_in_16_byte_units: u32, framebuffer_width_in_16_pixel_units: u32) -> u32 {
    spec_set_field(spec_set_field(spec_set_field(spec_set_field(0u32, 0, 0x1ff, step_size_u1_8), 12, 0x1, enable), 16, 0xff, stride_per_half_line_in_16_byte_units), 24, 0x7f, framebuffer_width_in_16_pixel_units)
}

/// The horizontal scaling register with the given fields; each is cut to its width.
pub fn horizontal_scaling(step_size_u1_8: u32, enable: u32, stride_per_half_line_in_16_byte_units: u32, framebuffer_width_in_16_pixel_units: u32) -> (r: u32)
    ensures
        r == spec_horizontal_scaling(step_size_u1_8, enable, stride_per_half_line_in_16_byte_units, framebuffer_width_in_16_pixel_units),
{
    let bits: u32 = 0;
    let bits = set_field(bits, 0, 0x1ff, step_size_u1_8);
    let bits = set_field(bits, 12, 0x1, enable);
    let bits = set_field(bits, 16, 0xff, stride_per_half_line_in_16_byte_units);
    let bits = set_field(bits, 24, 0x7f, framebuffer_width_in_16_pixel_units);
    bits
}

/// The clock select register built from zero field by field, lowest field first.
pub open spec fn spec_clock_select(clock: u32) -> u32 {
    spec_set_field(0u32, 0, 0x1, clock)
}

/// The clock select register with the given fields; each is cut to its width.
pub fn clock_select(clock: u32) -> (r: u32)
    ensures
        r == spec_clock_select(clock),
{
    let bits: u32 = 0;
    let bits = set_field(bits, 0, 0x1, clock);
    bits
}

/// The timings that differ between the two NTSC modes.
pub struct NtscTimings {
    pub equalization: u32,
    pub active_lines: u32,
    pub pre_blanking_odd: u32,
    pub post_blanking_odd: u32,
    pub pre_blanking_even: u32,
    pub post_blanking_even: u32,
    pub burst_start_odd: u32,
    pub burst_end_odd: u32,
    pub burst_start_even: u32,
    pub burst_end_even: u32,
    pub bottom_field_offset: u32,
    pub interrupt_line_0: u32,
    pub interrupt_line_1: u32,
    pub stride: u32,
    pub clock: u32,
    pub interlace: u32,
}

/// Interlaced 480-line timing at 27 MHz: 240 lines a field, the bottom field one 1280-byte line
/// into the frame buffer.
pub open spec fn spec_ntsc_480i() -> NtscTimings {
    NtscTimings {
        equalization: 6,
        active_lines: 240,
        pre_blanking_odd: 24,
        post_blanking_odd: 3,
        pre_blanking_even: 25,
        post_blanking_even: 2,
        burst_start_odd: 12,
        burst_end_odd: 520,
        burst_start_even: 13,
        burst_end_even: 519,
        bottom_field_offset: 1280,
        interrupt_line_0: 240,
        interrupt_line_1: 503,
        stride: 80,
        clock: CLOCK_27MHZ,
        interlace: INTERLACED,
    }
}

/// Progressive 480-line timing at 54 MHz: both fields show the whole frame buffer.
pub open spec fn spec_ntsc_480p() -> NtscTimings {
    NtscTimings {
        equalization: 12,
        active_lines: 480,
        pre_blanking_odd: 36,
        post_blanking_odd: 18,
        pre_blanking_even: 36,
        post_blanking_even: 18,
        burst_start_odd: 24,
        burst_end_odd: 1038,
        burst_start_even: 24,
        burst_end_even: 1038,
        bottom_field_offset: 0,
        interrupt_line_0: 480,
        interrupt_line_1: 1005,
        stride: 40,
        clock: CLOCK_54MHZ,
        interlace: NON_INTERLACED,
    }
}

/// The writes that configure NTSC output with timings `t` for the frame buffer at
/// `framebuffer`: reset, the timings, the field bases, a vertical-blank interrupt at the end of
/// each field, 640-pixel scaling, the clock, and finally enable.
pub open spec fn spec_ntsc_writes(t: NtscTimings, framebuffer: u32) -> Seq<ViWrite> {
    seq![
        ViWrite { register: ViRegister::DisplayConfiguration, value: spec_display_configuration(0, 1, 0, 0, 0, 0, 0) },
        ViWrite { register: ViRegister::VerticalTimingA, value: spec_vertical_timing_a(t.equalization, t.active_lines) },
        ViWrite { register: ViRegister::HorizontalTimingA, value: spec_horizontal_timing_a(429, 105, 71) },
        ViWrite { register: ViRegister::HorizontalTimingB, value: spec_horizontal_timing_b(64, 162, 373) },
        ViWrite { register: ViRegister::VerticalTimingBOddField, value: spec_vertical_timing_b(t.pre_blanking_odd, t.post_blanking_odd) },
        ViWrite { register: ViRegister::VerticalTimingBEvenField, value: spec_vertical_timing_b(t.pre_blanking_even, t.post_blanking_even) },
        ViWrite { register: ViRegister::BurstBlankingOddField, value: spec_burst_blanking(t.burst_start_odd, t.burst_end_odd, t.burst_start_odd, t.burst_end_odd) },
        ViWrite { register: ViRegister::BurstBlankingEvenField, value: spec_burst_blanking(t.burst_start_even, t.burst_end_even, t.burst_start_even, t.burst_end_even) },
        ViWrite { register: ViRegister::TopLeftFieldBase, value: spec_field_base(framebuffer, 0, 0) },
        ViWrite { register: ViRegister::BottomLeftFieldBase, value: spec_field_base((framebuffer + t.bottom_field_offset) as u32, 0, 0) },
        ViWrite { register: ViRegister::DisplayInterrupt0, value: spec_display_interrupt(641, t.interrupt_line_0, 1, 0) },
        ViWrite { register: ViRegister::DisplayInterrupt1, value: spec_display_interrupt(641, t.interrupt_line_1, 1, 0) },
        ViWrite { register: ViRegister::DisplayInterrupt2, value: 0 },
        ViWrite { register: ViRegister::DisplayInterrupt3, value: 0 },
        ViWrite { register: ViRegister::HorizontalScaling, value: spec_horizontal_scaling(0x100, 0, t.stride, 40) },
        ViWrite { register: ViRegister::ClockSelect, value: spec_clock_select(t.clock) },
        ViWrite { register: ViRegister::DisplayConfiguration, value: spec_display_configuration(1, 0, t.interlace, 0, 0, 0, FORMAT_NTSC) },
    ]
}

/// Ownership of the video interface registers.
pub struct VideoInterface {
    _private: (),
}

impl VideoInterface {
    /// Takes the registers.
    pub fn new() -> (r: Self) {
        VideoInterface { _private: () }
    }
}

/// The video driver.
pub struct VideoDriver {
    vi: VideoInterface,
}

impl VideoDriver {
    /// A driver over the given registers.
    pub fn new(vi: VideoInterface) -> (r: Self) {
        VideoDriver { vi }
    }

    /// The writes that configure NTSC 480i output from the frame buffer at `framebuffer`, which
    /// is meant to be 32-byte aligned and below physical address 0x01000000.
    pub fn configure_for_ntsc_480i(&mut self, framebuffer: u32) -> (r: Vec<ViWrite>)
        requires
            framebuffer + 1280 <= u32::MAX,
        ensures
            r@ == spec_ntsc_writes(spec_ntsc_480i(), framebuffer),
    {
        ntsc_writes(6, 240, 24, 3, 25, 2, 12, 520, 13, 519, framebuffer, framebuffer + 1280, 240, 503, 80, CLOCK_27MHZ, INTERLACED)
    }

    /// The writes that configure NTSC 480p output from the frame buffer at `framebuffer`, which
    /// is meant to be 32-byte aligned and below physical address 0x01000000.
    pub fn configure_for_ntsc_480p(&mut self, framebuffer: u32) -> (r: Vec<ViWrite>)
        ensures
            r@ == spec_ntsc_writes(spec_ntsc_480p(), framebuffer),
    {
        ntsc_writes(12, 480, 36, 18, 36, 18, 24, 1038, 24, 1038, framebuffer, framebuffer, 480, 1005, 40, CLOCK_54MHZ, NON_INTERLACED)
    }
}

/// The configuration writes for the given timings.
fn ntsc_writes(
    equalization: u32,
    active_lines: u32,
    pre_blanking_odd: u32,
    post_blanking_odd: u32,
    pre_blanking_even: u32,
    post_blanking_even: u32,
    burst_start_odd: u32,
    burst_end_odd: u32,
    burst_start_even: u32,
    burst_end_even: u32,
    top_base: u32,
    bottom_base: u32,
    interrupt_line_0: u32,
    interrupt_line_1: u32,
    stride: u32,
    clock: u32,
    interlace: u32,
) -> (r: Vec<ViWrite>)
    ensures
        r@ == seq![
            ViWrite { register: ViRegister::DisplayConfiguration, value: spec_display_configuration(0, 1, 0, 0, 0, 0, 0) },
            ViWrite { register: ViRegister::VerticalTimingA, value: spec_vertical_timing_a(equalization, active_lines) },
            ViWrite { register: ViRegister::HorizontalTimingA, value: spec_horizontal_timing_a(429, 105, 71) },
            ViWrite { register: ViRegister::HorizontalTimingB, value: spec_horizontal_timing_b(64, 162, 373) },
            ViWrite { register: ViRegister::VerticalTimingBOddField, value: spec_vertical_timing_b(pre_blanking_odd, post_blanking_odd) },
            ViWrite { register: ViRegister::VerticalTimingBEvenField, value: spec_vertical_timing_b(pre_blanking_even, post_blanking_even) },
            ViWrite { register: ViRegister::BurstBlankingOddField, value: spec_burst_blanking(burst_start_odd, burst_end_odd, burst_start_odd, burst_end_odd) },
            ViWrite { register: ViRegister::BurstBlankingEvenField, value: spec_burst_blanking(burst_start_even, burst_end_even, burst_start_even, burst_end_even) },
            ViWrite { register: ViRegister::TopLeftFieldBase, value: spec_field_base(top_base, 0, 0) },
            ViWrite { register: ViRegister::BottomLeftFieldBase, value: spec_field_base(bottom_base, 0, 0) },
            ViWrite { register: ViRegister::DisplayInterrupt0, value: spec_display_interrupt(641, interrupt_line_0, 1, 0) },
            ViWrite { register: ViRegister::DisplayInterrupt1, value: spec_display_interrupt(641, interrupt_line_1, 1, 0) },
            ViWrite { register: ViRegister::DisplayInterrupt2, value: 0 },
            ViWrite { register: ViRegister::DisplayInterrupt3, value: 0 },
            ViWrite { register: ViRegister::HorizontalScaling, value: spec_horizontal_scaling(0x100, 0, stride, 40) },
            ViWrite { register: ViRegister::ClockSelect, value: spec_clock_select(clock) },
            ViWrite { register: ViRegister::DisplayConfiguration, value: spec_display_configuration(1, 0, interlace, 0, 0, 0, FORMAT_NTSC) },
        ],
{
    let mut v: Vec<ViWrite> = Vec::new();
    v.push(ViWrite { register: ViRegister::DisplayConfiguration, value: display_configuration(0, 1, 0, 0, 0, 0, 0) });
    v.push(ViWrite { register: ViRegister::VerticalTimingA, value: vertical_timing_a(equalization, active_lines) });
    v.push(ViWrite { register: ViRegister::HorizontalTimingA, value: horizontal_timing_a(429, 105, 71) });
    v.push(ViWrite { register: ViRegister::HorizontalTimingB, value: horizontal_timing_b(64, 162, 373) });
    v.push(ViWrite { register: ViRegister::VerticalTimingBOddField, value: vertical_timing_b(pre_blanking_odd, post_blanking_odd) });
    v.push(ViWrite { register: ViRegister::VerticalTimingBEvenField, value: vertical_timing_b(pre_blanking_even, post_blanking_even) });
    v.push(ViWrite { register: ViRegister::BurstBlankingOddField, value: burst_blanking(burst_start_odd, burst_end_odd, burst_start_odd, burst_end_odd) });
    v.push(ViWrite { register: ViRegister::BurstBlankingEvenField, value: burst_blanking(burst_start_even, burst_end_even, burst_start_even, burst_end_even) });
    v.push(ViWrite { register: ViRegister::TopLeftFieldBase, value: field_base(top_base, 0, 0) });
    v.push(ViWrite { register: ViRegister::BottomLeftFieldBase, value: field_base(bottom_base, 0, 0) });
    v.push(ViWrite { register: ViRegister::DisplayInterrupt0, value: display_interrupt(641, interrupt_line_0, 1, 0) });
    v.push(ViWrite { register: ViRegister::DisplayInterrupt1, value: display_interrupt(641, interrupt_line_1, 1, 0) });
    v.push(ViWrite { register: ViRegister::DisplayInterrupt2, value: 0 });
    v.push(ViWrite { register: ViRegister::DisplayInterrupt3, value: 0 });
    v.push(ViWrite { register: ViRegister::HorizontalScaling, value: horizontal_scaling(0x100, 0, stride, 40) });
    v.push(ViWrite { register: ViRegister::ClockSelect, value: clock_select(clock) });
    v.push(ViWrite { register: ViRegister::DisplayConfiguration, value: display_configuration(1, 0, interlace, 0, 0, 0, FORMAT_NTSC) });
    v
}

} // verus!
