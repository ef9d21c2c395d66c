//! The CPU's machine state register, its time base and its data cache, as values: reading and
//! writing the registers and issuing cache instructions is left to the caller, which hands the
//! values read here and writes the values computed here.
use vstd::prelude::*;

use crate::peripheral_access::{get_field, set_field, spec_field, spec_flag, spec_set_field, flag};

verus! {

/// Byte order of execution or of exception handling, stored in one bit.
#[derive(Clone, Copy, Debug, PartialEq, Eq, Structural)]
pub enum Endian {
    Big,
    Little,
}

impl Endian {
    /// The bit the byte order is stored as.
    pub open spec fn spec_as_u1(self) -> u8 {
        match self {
            Endian::Big => 0,
            Endian::Little => 1,
        }
    }

    /// The byte order stored as `value`.
    pub fn from_u1(value: u8) -> (r: Self)
        requires
            value < 2,
        ensures
            r.spec_as_u1() == value,
    {
        if value == 0 { Endian::Big } else { Endian::Little }
    }

    /// The bit the byte order is stored as.
    pub fn as_u1(self) -> (r: u8)
        ensures
            r == self.spec_as_u1(),
            r < 2,
    {
        match self {
            Endian::Big => 0,
            Endian::Little => 1,
        }
    }
}

/// Where exception vectors live: at `0x000nnnnn` or at `0xfffnnnnn`, stored in one bit.
#[derive(Clone, Copy, Debug, PartialEq, Eq, Structural)]
pub enum ExceptionPrefix {
    Low,
    High,
}

impl ExceptionPrefix {
    /// The bit the prefix is stored as.
    pub open spec fn spec_as_u1(self) -> u8 {
        match self {
            ExceptionPrefix::Low => 0,
            ExceptionPrefix::High => 1,
        }
    }

    /// The prefix stored as `value`.
    pub fn from_u1(value: u8) -> (r: Self)
        requires
            value < 2,
        ensures
            r.spec_as_u1() == value,
    {
        if value == 0 { ExceptionPrefix::Low } else { ExceptionPrefix::High }
    }

    /// The bit the prefix is stored as.
    pub fn as_u1(self) -> (r: u8)
        ensures
            r == self.spec_as_u1(),
            r < 2,
    {
        match self {
            ExceptionPrefix::Low => 0,
            ExceptionPrefix::High => 1,
        }
    }
}

/// The privilege level the CPU runs at, stored in one bit.
#[derive(Clone, Copy, Debug, PartialEq, Eq, Structural)]
pub enum PrivilegeLevel {
    Supervisor,
    User,
}

impl PrivilegeLevel {
    /// The bit the level is stored as.
    pub open spec fn spec_as_u1(self) -> u8 {
        match self {
            PrivilegeLevel::Supervisor => 0,
            PrivilegeLevel::User => 1,
        }
    }

    /// The level stored as `value`.
    pub fn from_u1(value: u8) -> (r: Self)
        requires
            value < 2,
        ensures
            r.spec_as_u1() == value,
    {
        if value == 0 { PrivilegeLevel::Supervisor } else { PrivilegeLevel::User }
    }

    /// The bit the level is stored as.
    pub fn as_u1(self) -> (r: u8)
        ensures
            r == self.spec_as_u1(),
            r < 2,
    {
        match self {
            PrivilegeLevel::Supervisor => 0,
            PrivilegeLevel::User => 1,
        }
    }
}

/// Bit positions of the machine state register's fields, lowest first.
pub const MSR_ENDIAN: u32 = 0;
pub const MSR_EXCEPTION_PREFIX: u32 = 6;
pub const MSR_PRIVILEGE_LEVEL: u32 = 14;
pub const MSR_EXTERNAL_INTERRUPTS_ENABLED: u32 = 15;
pub const MSR_EXCEPTION_ENDIAN: u32 = 16;

/// The machine state register.
#[derive(Clone, Copy, Debug, PartialEq, Eq, Structural)]
pub struct MachineState {
    pub bits: u32,
}

impl MachineState {
    /// The register holding `bits`.
    pub fn from_u32(bits: u32) -> (r: Self)
        ensures
            r.bits == bits,
    {
        MachineState { bits }
    }

    /// The bits of the register.
    pub fn as_u32(self) -> (r: u32)
        ensures
            r == self.bits,
    {
        self.bits
    }

    /// Whether external interrupts are taken.
    pub open spec fn spec_external_interrupts_enabled(self) -> bool {
        spec_field(self.bits, MSR_EXTERNAL_INTERRUPTS_ENABLED, 1) == 1
    }

    /// Whether external interrupts are taken.
    pub fn external_interrupts_enabled(self) -> (r: bool)
        ensures
            r == self.spec_external_interrupts_enabled(),
    {
        get_field(self.bits, MSR_EXTERNAL_INTERRUPTS_ENABLED, 1) == 1
    }

    /// The register with external interrupts enabled or not, and every other bit unchanged.
    pub open spec fn spec_with_external_interrupts_enabled(self, v: bool) -> MachineState {
        MachineState { bits: spec_set_field(self.bits, MSR_EXTERNAL_INTERRUPTS_ENABLED, 1, spec_flag(v)) }
    }

    /// The register with external interrupts enabled or not, and every other bit unchanged.
    pub fn with_external_interrupts_enabled(self, v: bool) -> (r: Self)
        ensures
            r == self.spec_with_external_interrupts_enabled(v),
    {
        MachineState { bits: set_field(self.bits, MSR_EXTERNAL_INTERRUPTS_ENABLED, 1, flag(v)) }
    }

    /// The byte order the CPU runs in.
    pub fn endian(self) -> (r: Endian)
        ensures
            r.spec_as_u1() == spec_field(self.bits, MSR_ENDIAN, 1),
    {
        let b = self.bits;
        let v = get_field(b, MSR_ENDIAN, 1);
        assert(v < 2) by (bit_vector)
            requires
                v == (b >> 0u32) & 1u32,
        ;
        Endian::from_u1(v as u8)
    }

    /// Where the exception vectors live.
    pub fn exception_prefix(self) -> (r: ExceptionPrefix)
        ensures
            r.spec_as_u1() == spec_field(self.bits, MSR_EXCEPTION_PREFIX, 1),
    {
        let b = self.bits;
        let v = get_field(b, MSR_EXCEPTION_PREFIX, 1);
        assert(v < 2) by (bit_vector)
            requires
                v == (b >> 6u32) & 1u32,
        ;
        ExceptionPrefix::from_u1(v as u8)
    }

    /// The privilege level the CPU runs at.
    pub fn privilege_level(self) -> (r: PrivilegeLevel)
        ensures
            r.spec_as_u1() == spec_field(self.bits, MSR_PRIVILEGE_LEVEL, 1),
    {
        let b = self.bits;
        let v = get_field(b, MSR_PRIVILEGE_LEVEL, 1);
        assert(v < 2) by (bit_vector)
            requires
                v == (b >> 14u32) & 1u32,
        ;
        PrivilegeLevel::from_u1(v as u8)
    }

    /// The byte order exceptions are handled in.
    pub fn exception_endian(self) -> (r: Endian)
        ensures
            r.spec_as_u1() == spec_field(self.bits, MSR_EXCEPTION_ENDIAN, 1),
    {
        let b = self.bits;
        let v = get_field(b, MSR_EXCEPTION_ENDIAN, 1);
        assert(v < 2) by (bit_vector)
            requires
                v == (b >> 16u32) & 1u32,
        ;
        Endian::from_u1(v as u8)
    }
}

/// Disabling external interrupts: the register to write back, with external interrupts
/// disabled and every other bit as read, and whether they were enabled.
pub fn disable_external_interrupts(msr: MachineState) -> (r: (MachineState, bool))
    ensures
        r.0 == msr.spec_with_external_interrupts_enabled(false),
        r.1 == msr.spec_external_interrupts_enabled(),
{
    let was_enabled = msr.external_interrupts_enabled();
    (msr.with_external_interrupts_enabled(false), was_enabled)
}

/// Enabling external interrupts: the register to write back, with external interrupts enabled
/// and every other bit as read.
pub fn enable_external_interrupts(msr: MachineState) -> (r: MachineState)
    ensures
        r == msr.spec_with_external_interrupts_enabled(true),
{
    msr.with_external_interrupts_enabled(true)
}

/// After running with external interrupts disabled: the register to write back, with external
/// interrupts in their previous state, enabled or not, and every other bit as read.
pub fn restore_external_interrupts(msr: MachineState, was_enabled: bool) -> (r: MachineState)
    ensures
        r == msr.spec_with_external_interrupts_enabled(was_enabled),
{
    msr.with_external_interrupts_enabled(was_enabled)
}

/// Disabling external interrupts and then restoring them leaves the register as it was, and
/// restoring puts back the previous enabled state whatever the register held in between.
pub proof fn lemma_disable_restore_round_trip(msr: MachineState, between: MachineState)
    ensures
        ({
            let disabled = msr.spec_with_external_interrupts_enabled(false);
            let was_enabled = msr.spec_external_interrupts_enabled();
            &&& !disabled.spec_external_interrupts_enabled()
            &&& disabled.spec_with_external_interrupts_enabled(was_enabled) == msr
            &&& between.spec_with_external_interrupts_enabled(was_enabled).spec_external_interrupts_enabled()
                == was_enabled
        }),
{
    let c = between.bits;
    assert((((c & !(1u32 << 15u32)) | ((1u32 & 1u32) << 15u32)) >> 15u32) & 1u32 == 1u32)
        by (bit_vector);
    assert((((c & !(1u32 << 15u32)) | ((0u32 & 1u32) << 15u32)) >> 15u32) & 1u32 != 1u32)
        by (bit_vector);
    let b = msr.bits;
    assert((((b & !(1u32 << 15u32)) | ((0u32 & 1u32) << 15u32)) >> 15u32) & 1u32 != 1u32)
        by (bit_vector);
    assert((b >> 15u32) & 1u32 == 1u32 ==> ((((b & !(1u32 << 15u32)) | ((0u32 & 1u32) << 15u32))
        & !(1u32 << 15u32)) | ((1u32 & 1u32) << 15u32)) == b) by (bit_vector);
    assert((b >> 15u32) & 1u32 != 1u32 ==> ((b & !(1u32 << 15u32)) | ((0u32 & 1u32) << 15u32))
        == b) by (bit_vector);
}

/// The time base from its two halves, read upper, lower, upper: the value when the upper half
/// did not change in between, else nothing (read again).
pub fn time_base(upper_first: u32, lower: u32, upper_second: u32) -> (r: Option<u64>)
    ensures
        upper_first == upper_second ==> r == Some((upper_first as int * 0x1_0000_0000 + lower) as u64),
        upper_first != upper_second ==> r is None,
{
    if upper_first == upper_second {
        let v = (upper_first as u64) << 32u64 | lower as u64;
        assert(v == upper_first as int * 0x1_0000_0000 + lower) by (bit_vector)
            requires
                v == (upper_first as u64) << 32u64 | lower as u64,
        ;
        Some(v)
    } else {
        None
    }
}

/// The size of a cache block.
pub const CACHE_BLOCK_SIZE: usize = 32;

/// The addresses of the `block_count` data cache blocks to flush, from `start` on, one per
/// 32-byte block.
pub fn flush_data_cache_blocks(start: usize, block_count: usize) -> (r: Vec<usize>)
    requires
        start + 32 * block_count <= usize::MAX,
    ensures
        r@.len() == block_count,
        forall|i: int| 0 <= i < block_count ==> r@[i] == start + 32 * i,
{
    let mut r: Vec<usize> = Vec::new();
    let mut address = start;
    let mut i: usize = 0;
    while i < block_count
        invariant
            i <= block_count,
            start + 32 * block_count <= usize::MAX,
            address == start + 32 * i,
            r@.len() == i,
            forall|j: int| 0 <= j < i ==> r@[j] == start + 32 * j,
        decreases block_count - i,
    {
        r.push(address);
        i = i + 1;
        address = address + CACHE_BLOCK_SIZE;
    }
    r
}

} // verus!
