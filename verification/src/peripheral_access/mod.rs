//! Register-level access to the GAMECUBE peripherals: the register block addresses and typed
//! readers and writers for register fields.
use vstd::prelude::*;

pub mod cp;
pub mod di;

verus! {

/// The field of `bits` that starts at bit `shift` and is selected by `mask`.
pub open spec fn spec_field(bits: u32, shift: u32, mask: u32) -> u32 {
    (bits >> shift) & mask
}

/// `bits` with the field at `shift` selected by `mask` replaced by the low bits of `value`.
pub open spec fn spec_set_field(bits: u32, shift: u32, mask: u32, value: u32) -> u32 {
    (bits & !(mask << shift)) | ((value & mask) << shift)
}

/// Writing a field and reading the same field back gives the low bits of the written value.
pub proof fn lemma_field_of_set_field_same(bits: u32, shift: u32, mask: u32, value: u32)
    requires
        shift < 32,
        (mask << shift) >> shift == mask,
    ensures
        spec_field(spec_set_field(bits, shift, mask, value), shift, mask) == value & mask,
{
    assert(shift < 32 && (mask << shift) >> shift == mask ==> (((bits & !(mask << shift)) | ((
    value & mask) << shift)) >> shift) & mask == value & mask) by (bit_vector);
}

/// Writing a field leaves every field that does not overlap it unchanged.
pub proof fn lemma_field_of_set_field_other(
    bits: u32,
    shift: u32,
    mask: u32,
    value: u32,
    other_shift: u32,
    other_mask: u32,
)
    requires
        shift < 32,
        other_shift < 32,
        (mask << shift) & (other_mask << other_shift) == 0,
        (other_mask << other_shift) >> other_shift == other_mask,
    ensures
        spec_field(spec_set_field(bits, shift, mask, value), other_shift, other_mask) == spec_field(
            bits,
            other_shift,
            other_mask,
        ),
{
    assert(shift < 32 && other_shift < 32 && (mask << shift) & (other_mask << other_shift) == 0
        && (other_mask << other_shift) >> other_shift == other_mask ==> (((bits & !(mask << shift))
        | ((value & mask) << shift)) >> other_shift) & other_mask == (bits >> other_shift)
        & other_mask) by (bit_vector);
}

/// `bits` with the field at `shift` selected by `mask` replaced by the low bits of `value`.
pub fn set_field(bits: u32, shift: u32, mask: u32, value: u32) -> (r: u32)
    requires
        shift < 32,
    ensures
        r == spec_set_field(bits, shift, mask, value),
{
    (bits & !(mask << shift)) | ((value & mask) << shift)
}

/// The field of `bits` at `shift` selected by `mask`.
pub fn get_field(bits: u32, shift: u32, mask: u32) -> (r: u32)
    requires
        shift < 32,
    ensures
        r == spec_field(bits, shift, mask),
{
    (bits >> shift) & mask
}

/// The number a flag is stored as.
pub open spec fn spec_flag(v: bool) -> u32 {
    if v { 1 } else { 0 }
}

/// The number a flag is stored as.
pub fn flag(v: bool) -> (r: u32)
    ensures
        r == spec_flag(v),
{
    if v { 1 } else { 0 }
}

/// Command Processor.
pub struct CP {
    _private: (),
}

impl CP {
    /// Address of the register block.
    pub const PTR: usize = 0xcc00_0000;

    /// Returns the address of the register block.
    pub fn ptr() -> (r: usize)
        ensures
            r == 0xcc00_0000,
    {
        Self::PTR
    }
}

/// Processor Interface.
pub struct PI {
    _private: (),
}

impl PI {
    /// Address of the register block.
    pub const PTR: usize = 0xcc00_3000;

    /// Returns the address of the register block.
    pub fn ptr() -> (r: usize)
        ensures
            r == 0xcc00_3000,
    {
        Self::PTR
    }
}

/// DVD Interface.
pub struct DI {
    _private: (),
}

impl DI {
    /// Address of the register block.
    pub const PTR: usize = 0xcc00_6000;

    /// Returns the address of the register block.
    pub fn ptr() -> (r: usize)
        ensures
            r == 0xcc00_6000,
    {
        Self::PTR
    }
}

/// All the peripherals.
#[allow(non_snake_case)]
pub struct Peripherals {
    /// CP
    pub CP: CP,
    /// PI
    pub PI: PI,
    /// DI
    pub DI: DI,
}

impl Peripherals {
    /// Returns the peripherals without checking whether they were handed out before.
    pub fn steal() -> Self {
        Peripherals { CP: CP { _private: () }, PI: PI { _private: () }, DI: DI { _private: () } }
    }
}

} // verus!
