//! The DVD interface: its register layout and the driver's decisions. A transfer is a list of
//! register writes that the caller performs in order, followed by status polls whose outcome
//! the driver decides.
use vstd::prelude::*;

use crate::peripheral_access::{
    flag, get_field, lemma_field_of_set_field_other, lemma_field_of_set_field_same, set_field,
    spec_field, spec_flag, spec_set_field,
};

verus! {

/// A one-bit field at `shift` is read back as it was written.
pub proof fn lemma_flag_round_trip(bits: u32, shift: u32, v: bool)
    requires
        shift < 32,
    ensures
        (spec_field(spec_set_field(bits, shift, 1, spec_flag(v)), shift, 1) == 1) == v,
{
    assert((1u32 << shift) >> shift == 1) by (bit_vector)
        requires
            shift < 32,
    ;
    lemma_field_of_set_field_same(bits, shift, 1, spec_flag(v));
    assert(spec_flag(v) & 1 == spec_flag(v)) by (bit_vector)
        requires
            spec_flag(v) == 0 || spec_flag(v) == 1,
    ;
}

/// Writing a one-bit field at `shift` leaves the one-bit field at `other` unchanged.
pub proof fn lemma_flag_other(bits: u32, shift: u32, v: bool, other: u32)
    requires
        shift < 32,
        other < 32,
        shift != other,
    ensures
        spec_field(spec_set_field(bits, shift, 1, spec_flag(v)), other, 1) == spec_field(
            bits,
            other,
            1,
        ),
{
    assert((1u32 << shift) & (1u32 << other) == 0 && (1u32 << other) >> other == 1)
        by (bit_vector)
        requires
            shift < 32,
            other < 32,
            shift != other,
    ;
    lemma_field_of_set_field_other(bits, shift, 1, spec_flag(v), other, 1);
}

/// The DVD interface status register.
#[derive(Clone, Copy, Debug, PartialEq, Eq, Structural)]
pub struct Status {
    pub bits: u32,
}

/// Bit positions of the status register's flags.
pub const STATUS_REQUEST_BREAK: u32 = 0;
pub const STATUS_DEVICE_ERROR_MASK: u32 = 1;
pub const STATUS_DEVICE_ERROR_INTERRUPT: u32 = 2;
pub const STATUS_TRANSFER_COMPLETE_MASK: u32 = 3;
pub const STATUS_TRANSFER_COMPLETE_INTERRUPT: u32 = 4;
pub const STATUS_BREAK_COMPLETE_MASK: u32 = 5;
pub const STATUS_BREAK_COMPLETE_INTERRUPT: u32 = 6;

impl Status {
    /// Whether the flag at bit `shift` is set.
    pub open spec fn spec_flag_at(self, shift: u32) -> bool {
        spec_field(self.bits, shift, 1) == 1
    }

    /// The register with the flag at bit `shift` set to `v`.
    pub open spec fn spec_with_flag(self, shift: u32, v: bool) -> Self {
        Status { bits: spec_set_field(self.bits, shift, 1, spec_flag(v)) }
    }

    /// All bits clear.
    pub fn zero() -> (r: Self)
        ensures
            r.bits == 0,
    {
        Status { bits: 0 }
    }

    /// The register with the flag at bit `shift` set to `v`.
    pub fn with_flag(self, shift: u32, v: bool) -> (r: Self)
        requires
            shift < 32,
        ensures
            r == self.spec_with_flag(shift, v),
    {
        Status { bits: set_field(self.bits, shift, 1, flag(v)) }
    }

    /// Whether the flag at bit `shift` is set.
    pub fn flag_at(self, shift: u32) -> (r: bool)
        requires
            shift < 32,
        ensures
            r == self.spec_flag_at(shift),
    {
        get_field(self.bits, shift, 1) == 1
    }

    /// Whether the drive reported an error.
    pub fn device_error_interrupt(self) -> (r: bool)
        ensures
            r == self.spec_flag_at(STATUS_DEVICE_ERROR_INTERRUPT),
    {
        self.flag_at(STATUS_DEVICE_ERROR_INTERRUPT)
    }

    /// Whether the transfer completed.
    pub fn transfer_complete_interrupt(self) -> (r: bool)
        ensures
            r == self.spec_flag_at(STATUS_TRANSFER_COMPLETE_INTERRUPT),
    {
        self.flag_at(STATUS_TRANSFER_COMPLETE_INTERRUPT)
    }

    /// Whether a break completed.
    pub fn break_complete_interrupt(self) -> (r: bool)
        ensures
            r == self.spec_flag_at(STATUS_BREAK_COMPLETE_INTERRUPT),
    {
        self.flag_at(STATUS_BREAK_COMPLETE_INTERRUPT)
    }

    /// The write that acknowledges every interrupt and masks them all.
    pub open spec fn spec_ack_all() -> Self {
        Status { bits: 0 }.spec_with_flag(STATUS_BREAK_COMPLETE_INTERRUPT, true).spec_with_flag(
            STATUS_TRANSFER_COMPLETE_INTERRUPT,
            true,
        ).spec_with_flag(STATUS_DEVICE_ERROR_INTERRUPT, true)
    }

    /// The write that acknowledges only the interrupt at bit `shift`.
    pub open spec fn spec_ack(shift: u32) -> Self {
        Status { bits: 0 }.spec_with_flag(shift, true)
    }
}

/// A flag written into a status register is read back, and the other flags keep their values.
pub proof fn lemma_status_flag_write_read(s: Status, shift: u32, v: bool, other: u32)
    requires
        shift < 32,
        other < 32,
    ensures
        s.spec_with_flag(shift, v).spec_flag_at(shift) == v,
        other != shift ==> s.spec_with_flag(shift, v).spec_flag_at(other) == s.spec_flag_at(
            other,
        ),
{
    lemma_flag_round_trip(s.bits, shift, v);
    if other != shift {
        lemma_flag_other(s.bits, shift, v, other);
    }
}

/// The drive cover register.
#[derive(Clone, Copy, Debug, PartialEq, Eq, Structural)]
pub struct Cover {
    pub bits: u32,
}

/// Bit positions of the cover register's flags.
pub const COVER_STATE: u32 = 0;
pub const COVER_MASK: u32 = 1;
pub const COVER_INTERRUPT: u32 = 2;

impl Cover {
    /// Whether the flag at bit `shift` is set.
    pub open spec fn spec_flag_at(self, shift: u32) -> bool {
        spec_field(self.bits, shift, 1) == 1
    }

    /// Whether the cover is open.
    pub fn state(self) -> (r: bool)
        ensures
            r == self.spec_flag_at(COVER_STATE),
    {
        get_field(self.bits, COVER_STATE, 1) == 1
    }
}

/// The first command word: the command byte, then two sub-commands.
#[derive(Clone, Copy, Debug, PartialEq, Eq, Structural)]
pub struct CommandA {
    pub bits: u32,
}

/// The command word with `command` in bits 24..32, `subcommand1` in bits 16..24 and
/// `subcommand2` in bits 0..16, built field by field from zero.
pub open spec fn spec_command_a(command: u32, subcommand1: u32, subcommand2: u32) -> CommandA {
    CommandA {
        bits: spec_set_field(
            spec_set_field(spec_set_field(0, 24, 0xff, command), 16, 0xff, subcommand1),
            0,
            0xffff,
            subcommand2,
        ),
    }
}

impl CommandA {
    /// The command word with the given fields.
    pub fn new(command: u8, subcommand1: u8, subcommand2: u16) -> (r: Self)
        ensures
            r == spec_command_a(command as u32, subcommand1 as u32, subcommand2 as u32),
    {
        let bits = set_field(0, 24, 0xff, command as u32);
        let bits = set_field(bits, 16, 0xff, subcommand1 as u32);
        let bits = set_field(bits, 0, 0xffff, subcommand2 as u32);
        CommandA { bits }
    }

    /// The command byte.
    pub fn command(self) -> (r: u32)
        ensures
            r == spec_field(self.bits, 24, 0xff),
    {
        get_field(self.bits, 24, 0xff)
    }
}

/// The transfer control register.
#[derive(Clone, Copy, Debug, PartialEq, Eq, Structural)]
pub struct Control {
    pub bits: u32,
}

/// Direction of a transfer.
#[derive(Clone, Copy, Debug, PartialEq, Eq, Structural)]
pub enum Access {
    Read,
    Write,
}

impl Access {
    /// The bit the direction is stored as.
    pub open spec fn spec_as_u1(self) -> u32 {
        match self {
            Access::Read => 0,
            Access::Write => 1,
        }
    }

    /// The direction stored as `value`.
    pub fn from_u1(value: u8) -> (r: Self)
        requires
            value < 2,
        ensures
            r.spec_as_u1() == value,
    {
        if value == 0 { Access::Read } else { Access::Write }
    }

    /// The bit the direction is stored as.
    pub fn as_u1(self) -> (r: u8)
        ensures
            r == self.spec_as_u1(),
            r < 2,
    {
        match self {
            Access::Read => 0,
            Access::Write => 1,
        }
    }
}

/// Bit positions of the control register's fields.
pub const CONTROL_TRANSFER: u32 = 0;
pub const CONTROL_DMA: u32 = 1;
pub const CONTROL_ACCESS: u32 = 2;

/// The control word that starts a transfer in direction `access`, by DMA or not.
pub open spec fn spec_control(transfer: bool, dma: bool, access: Access) -> Control {
    Control {
        bits: spec_set_field(
            spec_set_field(spec_set_field(0, CONTROL_ACCESS, 1, access.spec_as_u1()), CONTROL_DMA, 1, spec_flag(dma)),
            CONTROL_TRANSFER,
            1,
            spec_flag(transfer),
        ),
    }
}

impl Control {
    /// The control word with the given fields.
    pub fn new(transfer: bool, dma: bool, access: Access) -> (r: Self)
        ensures
            r == spec_control(transfer, dma, access),
    {
        let a: u32 = match access {
            Access::Read => 0,
            Access::Write => 1,
        };
        let bits = set_field(0, CONTROL_ACCESS, 1, a);
        let bits = set_field(bits, CONTROL_DMA, 1, flag(dma));
        let bits = set_field(bits, CONTROL_TRANSFER, 1, flag(transfer));
        Control { bits }
    }
}

/// The immediate data register: four bytes, `reg_val3` lowest.
#[derive(Clone, Copy, Debug, PartialEq, Eq, Structural)]
pub struct ImmediateBuffer {
    pub bits: u32,
}

impl ImmediateBuffer {
    /// The register holding the four bytes, `reg_val0` in the top byte.
    pub fn new(reg_val0: u8, reg_val1: u8, reg_val2: u8, reg_val3: u8) -> (r: Self)
        ensures
            r.bits == spec_set_field(
                spec_set_field(
                    spec_set_field(spec_set_field(0, 24, 0xff, reg_val0 as u32), 16, 0xff, reg_val1 as u32),
                    8,
                    0xff,
                    reg_val2 as u32,
                ),
                0,
                0xff,
                reg_val3 as u32,
            ),
    {
        let bits = set_field(0, 24, 0xff, reg_val0 as u32);
        let bits = set_field(bits, 16, 0xff, reg_val1 as u32);
        let bits = set_field(bits, 8, 0xff, reg_val2 as u32);
        let bits = set_field(bits, 0, 0xff, reg_val3 as u32);
        ImmediateBuffer { bits }
    }

    /// The byte at bit `shift` (0, 8, 16 or 24).
    pub fn reg_val(self, shift: u32) -> (r: u32)
        requires
            shift < 32,
        ensures
            r == spec_field(self.bits, shift, 0xff),
    {
        get_field(self.bits, shift, 0xff)
    }
}

/// Base address of the DVD interface registers.
pub const DI_BASE: usize = 0xcc00_6000;

/// Size in bytes of the DVD interface register block.
pub const DI_SIZE: usize = 0x28;

/// A write to one register of the DVD interface.
#[derive(Clone, Copy, Debug, PartialEq, Eq, Structural)]
pub enum DiWrite {
    Status(Status),
    Cover(Cover),
    CommandA(CommandA),
    CommandB(u32),
    CommandC(u32),
    DmaAddress(u32),
    DmaLength(u32),
    Control(Control),
    ImmediateBuffer(ImmediateBuffer),
}

impl DiWrite {
    /// Byte offset of the written register from the start of the block.
    pub open spec fn spec_offset(self) -> usize {
        match self {
            DiWrite::Status(_) => 0x00,
            DiWrite::Cover(_) => 0x04,
            DiWrite::CommandA(_) => 0x08,
            DiWrite::CommandB(_) => 0x0c,
            DiWrite::CommandC(_) => 0x10,
            DiWrite::DmaAddress(_) => 0x14,
            DiWrite::DmaLength(_) => 0x18,
            DiWrite::Control(_) => 0x1c,
            DiWrite::ImmediateBuffer(_) => 0x20,
        }
    }

    /// The word written.
    pub open spec fn spec_value(self) -> u32 {
        match self {
            DiWrite::Status(s) => s.bits,
            DiWrite::Cover(c) => c.bits,
            DiWrite::CommandA(a) => a.bits,
            DiWrite::CommandB(b) => b,
            DiWrite::CommandC(c) => c,
            DiWrite::DmaAddress(a) => a,
            DiWrite::DmaLength(l) => l,
            DiWrite::Control(c) => c.bits,
            DiWrite::ImmediateBuffer(i) => i.bits,
        }
    }

    /// Address of the written register.
    pub fn address(self) -> (r: usize)
        ensures
            r == DI_BASE + self.spec_offset(),
            r + 4 <= DI_BASE + DI_SIZE,
    {
        let offset: usize = match self {
            DiWrite::Status(_) => 0x00,
            DiWrite::Cover(_) => 0x04,
            DiWrite::CommandA(_) => 0x08,
            DiWrite::CommandB(_) => 0x0c,
            DiWrite::CommandC(_) => 0x10,
            DiWrite::DmaAddress(_) => 0x14,
            DiWrite::DmaLength(_) => 0x18,
            DiWrite::Control(_) => 0x1c,
            DiWrite::ImmediateBuffer(_) => 0x20,
        };
        DI_BASE + offset
    }

    /// The word written.
    pub fn value(self) -> (r: u32)
        ensures
            r == self.spec_value(),
    {
        match self {
            DiWrite::Status(s) => s.bits,
            DiWrite::Cover(c) => c.bits,
            DiWrite::CommandA(a) => a.bits,
            DiWrite::CommandB(b) => b,
            DiWrite::CommandC(c) => c,
            DiWrite::DmaAddress(a) => a,
            DiWrite::DmaLength(l) => l,
            DiWrite::Control(c) => c.bits,
            DiWrite::ImmediateBuffer(i) => i.bits,
        }
    }
}

/// Ownership of the DVD interface registers.
pub struct DvdInterface {
    _private: (),
}

impl DvdInterface {
    /// Takes the registers.
    pub fn new() -> (r: Self) {
        DvdInterface { _private: () }
    }
}

/// A command: the three command words.
#[derive(Clone, Copy, Debug, PartialEq, Eq, Structural)]
pub struct Command {
    pub a: CommandA,
    pub b: u32,
    pub c: u32,
}

/// Why a transfer failed.
#[derive(Clone, Copy, Debug, PartialEq, Eq, Structural)]
pub enum DvdError {
    /// The drive reported an error.
    Placeholder,
}

impl DvdError {
    /// The message shown for the error.
    pub fn to_string(&self) -> (r: String)
        ensures
            r@ == "DVD Error"@,
    {
        String::from_str("DVD Error")
    }
}

/// What a status poll during a transfer decides.
#[derive(Clone, Copy, Debug, PartialEq, Eq, Structural)]
pub enum DmaPoll {
    /// Neither completion nor error yet: poll again.
    Pending,
    /// The transfer completed: write this acknowledgement and return `Ok`.
    Done(Status),
    /// The drive reported an error: write this acknowledgement and return the error.
    Failed(Status),
}

/// The driver for the DVD interface.
pub struct DvdDriver {
    di: DvdInterface,
}

/// The writes that start a DMA read of `command` into the buffer at `address` of `len` bytes:
/// acknowledge and mask every interrupt, set the command words, point at the buffer and start.
pub open spec fn spec_dma_read_writes(command: Command, address: u32, len: u32) -> Seq<DiWrite> {
    seq![
        DiWrite::Status(Status::spec_ack_all()),
        DiWrite::CommandA(command.a),
        DiWrite::CommandB(command.b),
        DiWrite::CommandC(command.c),
        DiWrite::DmaAddress(address),
        DiWrite::DmaLength(len),
        DiWrite::Control(spec_control(true, true, Access::Read)),
    ]
}

/// The read command for `len` bytes at byte `offset`: command 0xa8, the offset in words.
pub open spec fn spec_read_command(offset: usize, len: usize) -> Command {
    Command { a: spec_command_a(0xa8, 0, 0), b: (offset / 4) as u32, c: len as u32 }
}

impl DvdDriver {
    /// A driver over the given registers.
    pub fn new(di: DvdInterface) -> (r: Self) {
        DvdDriver { di }
    }

    /// The drive inquiry command: 32 bytes of drive information.
    pub fn inquiry_command() -> (r: Command)
        ensures
            r == (Command { a: spec_command_a(0x12, 0, 0), b: 0, c: 0x20 }),
    {
        Command { a: CommandA::new(0x12, 0, 0), b: 0, c: 0x20 }
    }

    /// The command that reads the 32-byte disc identifier.
    pub fn read_disc_id_command() -> (r: Command)
        ensures
            r == (Command { a: spec_command_a(0xa8, 0, 0x40), b: 0, c: 32 }),
    {
        Command { a: CommandA::new(0xa8, 0, 0x0040), b: 0, c: 32 }
    }

    /// The read command for `len` bytes at byte `offset`, which is a multiple of four.
    pub fn read_command(offset: usize, len: usize) -> (r: Command)
        requires
            offset % 4 == 0,
            offset / 4 <= u32::MAX,
            len <= u32::MAX,
        ensures
            r == spec_read_command(offset, len),
    {
        Command { a: CommandA::new(0xa8, 0, 0), b: (offset / 4) as u32, c: len as u32 }
    }

    /// The register writes that start a DMA read of `command` into the buffer at `address` of
    /// `len` bytes. The buffer is 32-byte aligned and a multiple of 32 bytes long; the caller
    /// invalidates its cache lines before the writes.
    pub fn dma_read_writes(command: Command, address: u32, len: u32) -> (r: Vec<DiWrite>)
        requires
            address % 32 == 0,
            len % 32 == 0,
        ensures
            r@ == spec_dma_read_writes(command, address, len),
    {
        let ack = Status::zero().with_flag(STATUS_BREAK_COMPLETE_INTERRUPT, true).with_flag(
            STATUS_TRANSFER_COMPLETE_INTERRUPT,
            true,
        ).with_flag(STATUS_DEVICE_ERROR_INTERRUPT, true);
        let mut v: Vec<DiWrite> = Vec::new();
        v.push(DiWrite::Status(ack));
        v.push(DiWrite::CommandA(command.a));
        v.push(DiWrite::CommandB(command.b));
        v.push(DiWrite::CommandC(command.c));
        v.push(DiWrite::DmaAddress(address));
        v.push(DiWrite::DmaLength(len));
        v.push(DiWrite::Control(Control::new(true, true, Access::Read)));
        assert(v@ =~= spec_dma_read_writes(command, address, len));
        v
    }

    /// Decides on a status read during a transfer: an error wins over completion.
    pub fn dma_poll(status: Status) -> (r: DmaPoll)
        ensures
            status.spec_flag_at(STATUS_DEVICE_ERROR_INTERRUPT) ==> r == DmaPoll::Failed(
                Status::spec_ack(STATUS_DEVICE_ERROR_INTERRUPT),
            ),
            !status.spec_flag_at(STATUS_DEVICE_ERROR_INTERRUPT) && status.spec_flag_at(
                STATUS_TRANSFER_COMPLETE_INTERRUPT,
            ) ==> r == DmaPoll::Done(Status::spec_ack(STATUS_TRANSFER_COMPLETE_INTERRUPT)),
            !status.spec_flag_at(STATUS_DEVICE_ERROR_INTERRUPT) && !status.spec_flag_at(
                STATUS_TRANSFER_COMPLETE_INTERRUPT,
            ) ==> r == DmaPoll::Pending,
    {
        if status.device_error_interrupt() {
            DmaPoll::Failed(Status::zero().with_flag(STATUS_DEVICE_ERROR_INTERRUPT, true))
        } else if status.transfer_complete_interrupt() {
            DmaPoll::Done(Status::zero().with_flag(STATUS_TRANSFER_COMPLETE_INTERRUPT, true))
        } else {
            DmaPoll::Pending
        }
    }

    /// The result a finished poll gives back; `None` while the transfer is pending.
    pub fn dma_result(poll: DmaPoll) -> (r: Option<Result<(), DvdError>>)
        ensures
            poll is Pending <==> r is None,
            poll is Done ==> r == Some(Ok::<(), DvdError>(())),
            poll is Failed ==> r == Some(Err::<(), DvdError>(DvdError::Placeholder)),
    {
        match poll {
            DmaPoll::Pending => None,
            DmaPoll::Done(_) => Some(Ok(())),
            DmaPoll::Failed(_) => Some(Err(DvdError::Placeholder)),
        }
    }

    /// The writes that start the inquiry into the 32-byte buffer at `address`.
    pub fn inquiry(&mut self, address: u32) -> (r: Vec<DiWrite>)
        requires
            address % 32 == 0,
        ensures
            r@ == spec_dma_read_writes(
                Command { a: spec_command_a(0x12, 0, 0), b: 0, c: 0x20 },
                address,
                32,
            ),
    {
        Self::dma_read_writes(Self::inquiry_command(), address, 32)
    }

    /// The writes that start reading the disc identifier into the 32-byte buffer at `address`.
    pub fn read_disc_id(&mut self, address: u32) -> (r: Vec<DiWrite>)
        requires
            address % 32 == 0,
        ensures
            r@ == spec_dma_read_writes(
                Command { a: spec_command_a(0xa8, 0, 0x40), b: 0, c: 32 },
                address,
                32,
            ),
    {
        Self::dma_read_writes(Self::read_disc_id_command(), address, 32)
    }

    /// The writes that start reading `len` bytes at disc byte `offset`, a multiple of four, into
    /// the buffer at `address`.
    pub fn read(&mut self, offset: usize, address: u32, len: u32) -> (r: Vec<DiWrite>)
        requires
            offset % 4 == 0,
            offset / 4 <= u32::MAX,
            address % 32 == 0,
            len % 32 == 0,
        ensures
            r@ == spec_dma_read_writes(spec_read_command(offset, len as usize), address, len),
    {
        Self::dma_read_writes(Self::read_command(offset, len as usize), address, len)
    }

    /// As [`DvdDriver::read`], into a buffer whose contents are not yet initialized.
    pub fn read_maybe_uninit(&mut self, offset: usize, address: u32, len: u32) -> (r: Vec<
        DiWrite,
    >)
        requires
            offset % 4 == 0,
            offset / 4 <= u32::MAX,
            address % 32 == 0,
            len % 32 == 0,
        ensures
            r@ == spec_dma_read_writes(spec_read_command(offset, len as usize), address, len),
    {
        self.read(offset, address, len)
    }

    /// The write that masks and acknowledges the cover interrupt before waiting for the cover to
    /// be `open` or closed.
    pub fn wait_for_cover(&mut self, open: bool) -> (r: DiWrite)
        ensures
            r == DiWrite::Cover(
                Cover {
                    bits: spec_set_field(
                        spec_set_field(0, COVER_MASK, 1, 1),
                        COVER_INTERRUPT,
                        1,
                        1,
                    ),
                },
            ),
    {
        let bits = set_field(0, COVER_MASK, 1, 1);
        let bits = set_field(bits, COVER_INTERRUPT, 1, 1);
        DiWrite::Cover(Cover { bits })
    }

    /// Whether the cover read back is in the state waited for.
    pub fn cover_reached(open: bool, cover: Cover) -> (r: bool)
        ensures
            r == (cover.spec_flag_at(COVER_STATE) == open),
    {
        cover.state() == open
    }

    /// The two values written to the interface control register of the processor interface to
    /// reset the drive, given its value before: first bit 2 cleared and bit 0 set, then bits 0
    /// and 2 set.
    pub fn reset_control_values(before: u32) -> (r: (u32, u32))
        ensures
            r.0 == (before & !4u32) | 1,
            r.1 == r.0 | 5,
    {
        let first = (before & !4u32) | 1;
        (first, first | 5)
    }
}

} // verus!
