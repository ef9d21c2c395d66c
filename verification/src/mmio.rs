//! Tokens that stand for the right to touch memory-mapped devices, and the interrupt registers of
//! the processor interface.
use vstd::prelude::*;

verus! {

/// The right to create device handles, established once at the start of `main` or of an
/// interrupt handler.
#[derive(Clone, Copy, Debug)]
pub struct PermissionRoot {
    _private: (),
}

impl PermissionRoot {
    /// Establishes a permission root. Call it only at the start of `main` or of an interrupt
    /// handler.
    pub fn new_unchecked() -> (r: Self) {
        PermissionRoot { _private: () }
    }
}

/// A token that external interrupts are disabled, so that read-modify-write sequences on devices
/// cannot be interrupted by other drivers.
#[derive(Clone, Copy, Debug)]
pub struct Uninterruptible {
    _private: (),
}

impl Uninterruptible {
    /// Makes the token. External interrupts must stay disabled while it is used.
    pub fn new_unchecked() -> (r: Self) {
        Uninterruptible { _private: () }
    }
}

/// Number of interrupt sources of the processor interface.
pub const INTERRUPT_SOURCES: u16 = 14;

/// The interrupt sources of the processor interface, one bit each, lowest first: GP error, reset
/// switch, DVD, serial, EXI, streaming, DSP, memory interface, video interface, GP token, GP
/// finish, command processor, external debugger, high speed port.
#[derive(Clone, Copy, Debug, PartialEq, Eq, Structural)]
pub struct Interrupts {
    pub bits: u16,
}

/// Bit positions of the interrupt sources.
pub const INTERRUPT_GP_ERROR: u16 = 0;
pub const INTERRUPT_RESET_SWITCH: u16 = 1;
pub const INTERRUPT_DVD: u16 = 2;
pub const INTERRUPT_SERIAL: u16 = 3;
pub const INTERRUPT_EXI: u16 = 4;
pub const INTERRUPT_STREAMING: u16 = 5;
pub const INTERRUPT_DSP: u16 = 6;
pub const INTERRUPT_MEMORY_INTERFACE: u16 = 7;
pub const INTERRUPT_VIDEO_INTERFACE: u16 = 8;
pub const INTERRUPT_GP_TOKEN: u16 = 9;
pub const INTERRUPT_GP_FINISH: u16 = 10;
pub const INTERRUPT_COMMAND_PROCESSOR: u16 = 11;
pub const INTERRUPT_EXTERNAL_DEBUGGER: u16 = 12;
pub const INTERRUPT_HIGH_SPEED_PORT: u16 = 13;

impl Interrupts {
    /// Whether source `i` is set.
    pub open spec fn spec_is_set(self, i: u16) -> bool {
        (self.bits >> i) & 1 == 1
    }

    /// No source set.
    pub fn zero() -> (r: Self)
        ensures
            forall|i: u16| i < INTERRUPT_SOURCES ==> !#[trigger] r.spec_is_set(i),
            r.bits == 0,
    {
        assert forall|i: u16| i < INTERRUPT_SOURCES implies !#[trigger] (Interrupts { bits: 0 }).spec_is_set(i) by {
            assert((0u16 >> i) & 1 != 1) by (bit_vector);
        }
        Interrupts { bits: 0 }
    }

    /// Every source set.
    pub fn all() -> (r: Self)
        ensures
            forall|i: u16| i < INTERRUPT_SOURCES ==> #[trigger] r.spec_is_set(i),
            r.bits == 0x3fff,
    {
        let mut r = Self::zero();
        let mut i: u16 = 0;
        assert(((1u32 << 0u16) - 1) as u16 == 0u16) by (bit_vector);
        while i < INTERRUPT_SOURCES
            invariant
                i <= INTERRUPT_SOURCES,
                r.bits == ((1u32 << i) - 1) as u16,
            decreases INTERRUPT_SOURCES - i,
        {
            r = r.with(i, true);
            assert(((((1u32 << i) - 1) as u16) | (1u16 << i)) == ((1u32 << (i + 1) as u32) - 1) as u16)
                by (bit_vector)
                requires
                    i < 14,
            ;
            i = i + 1;
        }
        assert(r.bits == 0x3fff) by {
            assert(((1u32 << 14u16) - 1) as u16 == 0x3fffu16) by (bit_vector);
        }
        assert forall|j: u16| j < INTERRUPT_SOURCES implies #[trigger] r.spec_is_set(j) by {
            assert((0x3fffu16 >> j) & 1 == 1) by (bit_vector)
                requires
                    j < 14,
            ;
        }
        r
    }

    /// Whether source `i` is set.
    pub fn is_set(self, i: u16) -> (r: bool)
        requires
            i < INTERRUPT_SOURCES,
        ensures
            r == self.spec_is_set(i),
    {
        (self.bits >> i) & 1 == 1
    }

    /// The sources with source `i` set or cleared, and the others as they were.
    pub fn with(self, i: u16, v: bool) -> (r: Self)
        requires
            i < INTERRUPT_SOURCES,
        ensures
            r.spec_is_set(i) == v,
            forall|j: u16| j < 16 && j != i ==> #[trigger] r.spec_is_set(j) == self.spec_is_set(j),
            v ==> r.bits == self.bits | (1u16 << i),
            !v ==> r.bits == self.bits & !(1u16 << i),
    {
        let b = self.bits;
        let r = if v { b | (1u16 << i) } else { b & !(1u16 << i) };
        assert(v ==> ((b | (1u16 << i)) >> i) & 1 == 1) by (bit_vector)
            requires
                i < 14,
        ;
        assert(!v ==> ((b & !(1u16 << i)) >> i) & 1 != 1) by (bit_vector)
            requires
                i < 14,
        ;
        assert forall|j: u16| j < 16 && j != i implies ((r >> j) & 1 == 1) == ((b >> j) & 1 == 1) by {
            assert(j < 16 && j != i && i < 14 && (r == b | (1u16 << i) || r == b & !(1u16 << i))
                ==> (((r >> j) & 1 == 1) == ((b >> j) & 1 == 1))) by (bit_vector);
        }
        Interrupts { bits: r }
    }
}

/// The interrupt cause register: which sources are pending, and the reset switch at bit 16.
#[derive(Clone, Copy, Debug, PartialEq, Eq, Structural)]
pub struct InterruptCause {
    pub bits: u32,
}

impl InterruptCause {
    /// The pending sources.
    pub fn interrupts(self) -> (r: Interrupts)
        ensures
            r.bits == self.bits & 0x3fff,
    {
        let b = self.bits;
        assert(b & 0x3fff <= 0xffff) by (bit_vector);
        Interrupts { bits: (b & 0x3fff) as u16 }
    }

    /// Whether the reset switch is pressed.
    pub fn reset_switch_is_pressed(self) -> (r: bool)
        ensures
            r == ((self.bits >> 16u32) & 1 == 1),
    {
        (self.bits >> 16u32) & 1 == 1
    }
}

/// The interrupt mask register: which sources may interrupt.
#[derive(Clone, Copy, Debug, PartialEq, Eq, Structural)]
pub struct InterruptMask {
    pub bits: u32,
}

impl InterruptMask {
    /// The mask that lets exactly the sources `interrupts` through.
    pub fn new(interrupts: Interrupts) -> (r: Self)
        ensures
            r.bits == interrupts.bits & 0x3fff,
    {
        InterruptMask { bits: (interrupts.bits & 0x3fff) as u32 }
    }

    /// The sources that may interrupt.
    pub fn interrupts(self) -> (r: Interrupts)
        ensures
            r.bits == self.bits & 0x3fff,
    {
        let b = self.bits;
        assert(b & 0x3fff <= 0xffff) by (bit_vector);
        Interrupts { bits: (b & 0x3fff) as u16 }
    }
}

} // verus!
