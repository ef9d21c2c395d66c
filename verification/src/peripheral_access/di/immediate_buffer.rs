//! Reader and writer for the `immediate_buffer` register.
#![allow(non_camel_case_types)]
use vstd::prelude::*;

#[allow(unused_imports)]
use crate::peripheral_access::{spec_field, spec_set_field};

verus! {

/// Register `immediate_buffer` reader: the value read from the register.
pub struct R {
    bits: u32,
}

impl View for R {
    type V = u32;

    closed spec fn view(&self) -> u32 {
        self.bits
    }
}

impl R {
    /// Wraps a value read from the register.
    pub fn from_bits(bits: u32) -> (r: R)
        ensures
            r@ == bits,
    {
        R { bits }
    }

    /// The raw value of the register.
    pub fn bits(&self) -> (r: u32)
        ensures
            r == self@,
    {
        self.bits
    }
}

/// Register `immediate_buffer` writer: the value that will be written to the register.
pub struct W {
    bits: u32,
}

impl View for W {
    type V = u32;

    closed spec fn view(&self) -> u32 {
        self.bits
    }
}

impl W {
    /// Starts from the given register value.
    pub fn from_bits(bits: u32) -> (r: W)
        ensures
            r@ == bits,
    {
        W { bits }
    }

    /// The value that will be written.
    pub fn to_bits(&self) -> (r: u32)
        ensures
            r == self@,
    {
        self.bits
    }

    /// Writes raw bits to the register.
    pub fn bits(&mut self, bits: u32) -> (r: &mut Self)
        ensures
            r@ == bits,
            final(self)@ == final(r)@,
    {
        self.bits = bits;
        self
    }
}

/// Field `reg_val0` reader.
pub struct REG_VAL0_R {
    bits: u8,
}

impl View for REG_VAL0_R {
    type V = u8;

    closed spec fn view(&self) -> u8 {
        self.bits
    }
}

impl REG_VAL0_R {
    /// Wraps the value of the field.
    pub fn new(bits: u8) -> (r: Self)
        ensures
            r@ == bits,
    {
        REG_VAL0_R { bits }
    }

    /// The value of the field.
    pub fn bits(&self) -> (r: u8)
        ensures
            r == self@,
    {
        self.bits
    }
}

/// Field `reg_val0` writer: bits 24.. of the register.
pub struct REG_VAL0_W<'a> {
    /// The register value being built.
    pub w: &'a mut W,
}

impl<'a> REG_VAL0_W<'a> {
    /// Writes raw bits to the field.
    pub fn bits(self, value: u8) -> (r: &'a mut W)
        ensures
            r@ == spec_set_field(old(self.w)@, 24, 0xff, value as u32),
            final(r)@ == final(self.w)@,
    {
        self.w.bits = (self.w.bits & !(0xffu32 << 24u32)) | (((value as u32) & 0xffu32) << 24u32);
        self.w
    }
}

/// Field `reg_val1` reader.
pub struct REG_VAL1_R {
    bits: u8,
}

impl View for REG_VAL1_R {
    type V = u8;

    closed spec fn view(&self) -> u8 {
        self.bits
    }
}

impl REG_VAL1_R {
    /// Wraps the value of the field.
    pub fn new(bits: u8) -> (r: Self)
        ensures
            r@ == bits,
    {
        REG_VAL1_R { bits }
    }

    /// The value of the field.
    pub fn bits(&self) -> (r: u8)
        ensures
            r == self@,
    {
        self.bits
    }
}

/// Field `reg_val1` writer: bits 16.. of the register.
pub struct REG_VAL1_W<'a> {
    /// The register value being built.
    pub w: &'a mut W,
}

impl<'a> REG_VAL1_W<'a> {
    /// Writes raw bits to the field.
    pub fn bits(self, value: u8) -> (r: &'a mut W)
        ensures
            r@ == spec_set_field(old(self.w)@, 16, 0xff, value as u32),
            final(r)@ == final(self.w)@,
    {
        self.w.bits = (self.w.bits & !(0xffu32 << 16u32)) | (((value as u32) & 0xffu32) << 16u32);
        self.w
    }
}

/// Field `reg_val2` reader.
pub struct REG_VAL2_R {
    bits: u8,
}

impl View for REG_VAL2_R {
    type V = u8;

    closed spec fn view(&self) -> u8 {
        self.bits
    }
}

impl REG_VAL2_R {
    /// Wraps the value of the field.
    pub fn new(bits: u8) -> (r: Self)
        ensures
            r@ == bits,
    {
        REG_VAL2_R { bits }
    }

    /// The value of the field.
    pub fn bits(&self) -> (r: u8)
        ensures
            r == self@,
    {
        self.bits
    }
}

/// Field `reg_val2` writer: bits 8.. of the register.
pub struct REG_VAL2_W<'a> {
    /// The register value being built.
    pub w: &'a mut W,
}

impl<'a> REG_VAL2_W<'a> {
    /// Writes raw bits to the field.
    pub fn bits(self, value: u8) -> (r: &'a mut W)
        ensures
            r@ == spec_set_field(old(self.w)@, 8, 0xff, value as u32),
            final(r)@ == final(self.w)@,
    {
        self.w.bits = (self.w.bits & !(0xffu32 << 8u32)) | (((value as u32) & 0xffu32) << 8u32);
        self.w
    }
}

/// Field `reg_val3` reader.
pub struct REG_VAL3_R {
    bits: u8,
}

impl View for REG_VAL3_R {
    type V = u8;

    closed spec fn view(&self) -> u8 {
        self.bits
    }
}

impl REG_VAL3_R {
    /// Wraps the value of the field.
    pub fn new(bits: u8) -> (r: Self)
        ensures
            r@ == bits,
    {
        REG_VAL3_R { bits }
    }

    /// The value of the field.
    pub fn bits(&self) -> (r: u8)
        ensures
            r == self@,
    {
        self.bits
    }
}

/// Field `reg_val3` writer: bits 0.. of the register.
pub struct REG_VAL3_W<'a> {
    /// The register value being built.
    pub w: &'a mut W,
}

impl<'a> REG_VAL3_W<'a> {
    /// Writes raw bits to the field.
    pub fn bits(self, value: u8) -> (r: &'a mut W)
        ensures
            r@ == spec_set_field(old(self.w)@, 0, 0xff, value as u32),
            final(r)@ == final(self.w)@,
    {
        self.w.bits = (self.w.bits & !(0xffu32 << 0u32)) | (((value as u32) & 0xffu32) << 0u32);
        self.w
    }
}

impl R {
    /// Bits 24.. of the register.
    pub fn reg_val0(&self) -> (r: REG_VAL0_R)
        ensures
            r@ == spec_field(self@, 24, 0xff) as u8,
    {
        REG_VAL0_R::new(((self.bits >> 24u32) & 0xffu32) as u8)
    }

    /// Bits 16.. of the register.
    pub fn reg_val1(&self) -> (r: REG_VAL1_R)
        ensures
            r@ == spec_field(self@, 16, 0xff) as u8,
    {
        REG_VAL1_R::new(((self.bits >> 16u32) & 0xffu32) as u8)
    }

    /// Bits 8.. of the register.
    pub fn reg_val2(&self) -> (r: REG_VAL2_R)
        ensures
            r@ == spec_field(self@, 8, 0xff) as u8,
    {
        REG_VAL2_R::new(((self.bits >> 8u32) & 0xffu32) as u8)
    }

    /// Bits 0.. of the register.
    pub fn reg_val3(&self) -> (r: REG_VAL3_R)
        ensures
            r@ == spec_field(self@, 0, 0xff) as u8,
    {
        REG_VAL3_R::new(((self.bits >> 0u32) & 0xffu32) as u8)
    }
}

impl W {
    /// The writer for the field at bit 24.
    pub fn reg_val0(&mut self) -> (r: REG_VAL0_W<'_>)
        ensures
            r.w@ == old(self)@,
            final(self)@ == final(r.w)@,
    {
        REG_VAL0_W { w: self }
    }

    /// The writer for the field at bit 16.
    pub fn reg_val1(&mut self) -> (r: REG_VAL1_W<'_>)
        ensures
            r.w@ == old(self)@,
            final(self)@ == final(r.w)@,
    {
        REG_VAL1_W { w: self }
    }

    /// The writer for the field at bit 8.
    pub fn reg_val2(&mut self) -> (r: REG_VAL2_W<'_>)
        ensures
            r.w@ == old(self)@,
            final(self)@ == final(r.w)@,
    {
        REG_VAL2_W { w: self }
    }

    /// The writer for the field at bit 0.
    pub fn reg_val3(&mut self) -> (r: REG_VAL3_W<'_>)
        ensures
            r.w@ == old(self)@,
            final(self)@ == final(r.w)@,
    {
        REG_VAL3_W { w: self }
    }
}

/// Writing any one field and reading the register back gives the written value in that field
/// and leaves every other field unchanged.
pub proof fn lemma_write_then_read(bits: u32, reg_val0: u8, reg_val1: u8, reg_val2: u8, reg_val3: u8)
    ensures
        spec_field(spec_set_field(bits, 24, 0xff, reg_val0 as u32), 24, 0xff) == reg_val0 as u32,
        spec_field(spec_set_field(bits, 24, 0xff, reg_val0 as u32), 16, 0xff) == spec_field(bits, 16, 0xff),
        spec_field(spec_set_field(bits, 24, 0xff, reg_val0 as u32), 8, 0xff) == spec_field(bits, 8, 0xff),
        spec_field(spec_set_field(bits, 24, 0xff, reg_val0 as u32), 0, 0xff) == spec_field(bits, 0, 0xff),
        spec_field(spec_set_field(bits, 16, 0xff, reg_val1 as u32), 24, 0xff) == spec_field(bits, 24, 0xff),
        spec_field(spec_set_field(bits, 16, 0xff, reg_val1 as u32), 16, 0xff) == reg_val1 as u32,
        spec_field(spec_set_field(bits, 16, 0xff, reg_val1 as u32), 8, 0xff) == spec_field(bits, 8, 0xff),
        spec_field(spec_set_field(bits, 16, 0xff, reg_val1 as u32), 0, 0xff) == spec_field(bits, 0, 0xff),
        spec_field(spec_set_field(bits, 8, 0xff, reg_val2 as u32), 24, 0xff) == spec_field(bits, 24, 0xff),
        spec_field(spec_set_field(bits, 8, 0xff, reg_val2 as u32), 16, 0xff) == spec_field(bits, 16, 0xff),
        spec_field(spec_set_field(bits, 8, 0xff, reg_val2 as u32), 8, 0xff) == reg_val2 as u32,
        spec_field(spec_set_field(bits, 8, 0xff, reg_val2 as u32), 0, 0xff) == spec_field(bits, 0, 0xff),
        spec_field(spec_set_field(bits, 0, 0xff, reg_val3 as u32), 24, 0xff) == spec_field(bits, 24, 0xff),
        spec_field(spec_set_field(bits, 0, 0xff, reg_val3 as u32), 16, 0xff) == spec_field(bits, 16, 0xff),
        spec_field(spec_set_field(bits, 0, 0xff, reg_val3 as u32), 8, 0xff) == spec_field(bits, 8, 0xff),
        spec_field(spec_set_field(bits, 0, 0xff, reg_val3 as u32), 0, 0xff) == reg_val3 as u32,
{
    assert((spec_field(spec_set_field(bits, 24, 0xff, reg_val0 as u32), 24, 0xff) == reg_val0 as u32) && (spec_field(spec_set_field(bits, 24, 0xff, reg_val0 as u32), 16, 0xff) == spec_field(bits, 16, 0xff)) && (spec_field(spec_set_field(bits, 24, 0xff, reg_val0 as u32), 8, 0xff) == spec_field(bits, 8, 0xff)) && (spec_field(spec_set_field(bits, 24, 0xff, reg_val0 as u32), 0, 0xff) == spec_field(bits, 0, 0xff)) && (spec_field(spec_set_field(bits, 16, 0xff, reg_val1 as u32), 24, 0xff) == spec_field(bits, 24, 0xff)) && (spec_field(spec_set_field(bits, 16, 0xff, reg_val1 as u32), 16, 0xff) == reg_val1 as u32) && (spec_field(spec_set_field(bits, 16, 0xff, reg_val1 as u32), 8, 0xff) == spec_field(bits, 8, 0xff)) && (spec_field(spec_set_field(bits, 16, 0xff, reg_val1 as u32), 0, 0xff) == spec_field(bits, 0, 0xff)) && (spec_field(spec_set_field(bits, 8, 0xff, reg_val2 as u32), 24, 0xff) == spec_field(bits, 24, 0xff)) && (spec_field(spec_set_field(bits, 8, 0xff, reg_val2 as u32), 16, 0xff) == spec_field(bits, 16, 0xff)) && (spec_field(spec_set_field(bits, 8, 0xff, reg_val2 as u32), 8, 0xff) == reg_val2 as u32) && (spec_field(spec_set_field(bits, 8, 0xff, reg_val2 as u32), 0, 0xff) == spec_field(bits, 0, 0xff)) && (spec_field(spec_set_field(bits, 0, 0xff, reg_val3 as u32), 24, 0xff) == spec_field(bits, 24, 0xff)) && (spec_field(spec_set_field(bits, 0, 0xff, reg_val3 as u32), 16, 0xff) == spec_field(bits, 16, 0xff)) && (spec_field(spec_set_field(bits, 0, 0xff, reg_val3 as u32), 8, 0xff) == spec_field(bits, 8, 0xff)) && (spec_field(spec_set_field(bits, 0, 0xff, reg_val3 as u32), 0, 0xff) == reg_val3 as u32)) by (bit_vector);
}

/// Register `immediate_buffer`: its value has type `u32`, it can be read and it can be written.
pub struct IMMEDIATE_BUFFER_SPEC;

} // verus!
