//! Reader and writer for the `command_buffer0` register.
#![allow(non_camel_case_types)]
use vstd::prelude::*;

#[allow(unused_imports)]
use crate::peripheral_access::{spec_field, spec_set_field};

verus! {

/// Register `command_buffer0` reader: the value read from the register.
pub struct R {
    bits: u32,
}

impl View for R {
    type V = u32;

    closed spec fn view(&self) -> u32 {
        self.bits
    }
}

impl R {
    /// Wraps a value read from the register.
    pub fn from_bits(bits: u32) -> (r: R)
        ensures
            r@ == bits,
    {
        R { bits }
    }

    /// The raw value of the register.
    pub fn bits(&self) -> (r: u32)
        ensures
            r == self@,
    {
        self.bits
    }
}

/// Register `command_buffer0` writer: the value that will be written to the register.
pub struct W {
    bits: u32,
}

impl View for W {
    type V = u32;

    closed spec fn view(&self) -> u32 {
        self.bits
    }
}

impl W {
    /// Starts from the given register value.
    pub fn from_bits(bits: u32) -> (r: W)
        ensures
            r@ == bits,
    {
        W { bits }
    }

    /// The value that will be written.
    pub fn to_bits(&self) -> (r: u32)
        ensures
            r == self@,
    {
        self.bits
    }

    /// Writes raw bits to the register.
    pub fn bits(&mut self, bits: u32) -> (r: &mut Self)
        ensures
            r@ == bits,
            final(self)@ == final(r)@,
    {
        self.bits = bits;
        self
    }
}

/// Field `command` reader.
pub struct COMMAND_R {
    bits: u8,
}

impl View for COMMAND_R {
    type V = u8;

    closed spec fn view(&self) -> u8 {
        self.bits
    }
}

impl COMMAND_R {
    /// Wraps the value of the field.
    pub fn new(bits: u8) -> (r: Self)
        ensures
            r@ == bits,
    {
        COMMAND_R { bits }
    }

    /// The value of the field.
    pub fn bits(&self) -> (r: u8)
        ensures
            r == self@,
    {
        self.bits
    }
}

/// Field `command` writer: bits 24.. of the register.
pub struct COMMAND_W<'a> {
    /// The register value being built.
    pub w: &'a mut W,
}

impl<'a> COMMAND_W<'a> {
    /// Writes raw bits to the field.
    pub fn bits(self, value: u8) -> (r: &'a mut W)
        ensures
            r@ == spec_set_field(old(self.w)@, 24, 0xff, value as u32),
            final(r)@ == final(self.w)@,
    {
        self.w.bits = (self.w.bits & !(0xffu32 << 24u32)) | (((value as u32) & 0xffu32) << 24u32);
        self.w
    }
}

/// Field `subcommand1` reader.
pub struct SUBCOMMAND1_R {
    bits: u8,
}

impl View for SUBCOMMAND1_R {
    type V = u8;

    closed spec fn view(&self) -> u8 {
        self.bits
    }
}

impl SUBCOMMAND1_R {
    /// Wraps the value of the field.
    pub fn new(bits: u8) -> (r: Self)
        ensures
            r@ == bits,
    {
        SUBCOMMAND1_R { bits }
    }

    /// The value of the field.
    pub fn bits(&self) -> (r: u8)
        ensures
            r == self@,
    {
        self.bits
    }
}

/// Field `subcommand1` writer: bits 16.. of the register.
pub struct SUBCOMMAND1_W<'a> {
    /// The register value being built.
    pub w: &'a mut W,
}

impl<'a> SUBCOMMAND1_W<'a> {
    /// Writes raw bits to the field.
    pub fn bits(self, value: u8) -> (r: &'a mut W)
        ensures
            r@ == spec_set_field(old(self.w)@, 16, 0xff, value as u32),
            final(r)@ == final(self.w)@,
    {
        self.w.bits = (self.w.bits & !(0xffu32 << 16u32)) | (((value as u32) & 0xffu32) << 16u32);
        self.w
    }
}

/// Field `subcommand2` reader.
pub struct SUBCOMMAND2_R {
    bits: u16,
}

impl View for SUBCOMMAND2_R {
    type V = u16;

    closed spec fn view(&self) -> u16 {
        self.bits
    }
}

impl SUBCOMMAND2_R {
    /// Wraps the value of the field.
    pub fn new(bits: u16) -> (r: Self)
        ensures
            r@ == bits,
    {
        SUBCOMMAND2_R { bits }
    }

    /// The value of the field.
    pub fn bits(&self) -> (r: u16)
        ensures
            r == self@,
    {
        self.bits
    }
}

/// Field `subcommand2` writer: bits 0.. of the register.
pub struct SUBCOMMAND2_W<'a> {
    /// The register value being built.
    pub w: &'a mut W,
}

impl<'a> SUBCOMMAND2_W<'a> {
    /// Writes raw bits to the field.
    pub fn bits(self, value: u16) -> (r: &'a mut W)
        ensures
            r@ == spec_set_field(old(self.w)@, 0, 0xffff, value as u32),
            final(r)@ == final(self.w)@,
    {
        self.w.bits = (self.w.bits & !(0xffffu32 << 0u32)) | (((value as u32) & 0xffffu32) << 0u32);
        self.w
    }
}

impl R {
    /// Bits 24.. of the register.
    pub fn command(&self) -> (r: COMMAND_R)
        ensures
            r@ == spec_field(self@, 24, 0xff) as u8,
    {
        COMMAND_R::new(((self.bits >> 24u32) & 0xffu32) as u8)
    }

    /// Bits 16.. of the register.
    pub fn subcommand1(&self) -> (r: SUBCOMMAND1_R)
        ensures
            r@ == spec_field(self@, 16, 0xff) as u8,
    {
        SUBCOMMAND1_R::new(((self.bits >> 16u32) & 0xffu32) as u8)
    }

    /// Bits 0.. of the register.
    pub fn subcommand2(&self) -> (r: SUBCOMMAND2_R)
        ensures
            r@ == spec_field(self@, 0, 0xffff) as u16,
    {
        SUBCOMMAND2_R::new(((self.bits >> 0u32) & 0xffffu32) as u16)
    }
}

impl W {
    /// The writer for the field at bit 24.
    pub fn command(&mut self) -> (r: COMMAND_W<'_>)
        ensures
            r.w@ == old(self)@,
            final(self)@ == final(r.w)@,
    {
        COMMAND_W { w: self }
    }

    /// The writer for the field at bit 16.
    pub fn subcommand1(&mut self) -> (r: SUBCOMMAND1_W<'_>)
        ensures
            r.w@ == old(self)@,
            final(self)@ == final(r.w)@,
    {
        SUBCOMMAND1_W { w: self }
    }

    /// The writer for the field at bit 0.
    pub fn subcommand2(&mut self) -> (r: SUBCOMMAND2_W<'_>)
        ensures
            r.w@ == old(self)@,
            final(self)@ == final(r.w)@,
    {
        SUBCOMMAND2_W { w: self }
    }
}

/// Writing any one field and reading the register back gives the written value in that field
/// and leaves every other field unchanged.
pub proof fn lemma_write_then_read(bits: u32, command: u8, subcommand1: u8, subcommand2: u16)
    ensures
        spec_field(spec_set_field(bits, 24, 0xff, command as u32), 24, 0xff) == command as u32,
        spec_field(spec_set_field(bits, 24, 0xff, command as u32), 16, 0xff) == spec_field(bits, 16, 0xff),
        spec_field(spec_set_field(bits, 24, 0xff, command as u32), 0, 0xffff) == spec_field(bits, 0, 0xffff),
        spec_field(spec_set_field(bits, 16, 0xff, subcommand1 as u32), 24, 0xff) == spec_field(bits, 24, 0xff),
        spec_field(spec_set_field(bits, 16, 0xff, subcommand1 as u32), 16, 0xff) == subcommand1 as u32,
        spec_field(spec_set_field(bits, 16, 0xff, subcommand1 as u32), 0, 0xffff) == spec_field(bits, 0, 0xffff),
        spec_field(spec_set_field(bits, 0, 0xffff, subcommand2 as u32), 24, 0xff) == spec_field(bits, 24, 0xff),
        spec_field(spec_set_field(bits, 0, 0xffff, subcommand2 as u32), 16, 0xff) == spec_field(bits, 16, 0xff),
        spec_field(spec_set_field(bits, 0, 0xffff, subcommand2 as u32), 0, 0xffff) == subcommand2 as u32,
{
    assert((spec_field(spec_set_field(bits, 24, 0xff, command as u32), 24, 0xff) == command as u32) && (spec_field(spec_set_field(bits, 24, 0xff, command as u32), 16, 0xff) == spec_field(bits, 16, 0xff)) && (spec_field(spec_set_field(bits, 24, 0xff, command as u32), 0, 0xffff) == spec_field(bits, 0, 0xffff)) && (spec_field(spec_set_field(bits, 16, 0xff, subcommand1 as u32), 24, 0xff) == spec_field(bits, 24, 0xff)) && (spec_field(spec_set_field(bits, 16, 0xff, subcommand1 as u32), 16, 0xff) == subcommand1 as u32) && (spec_field(spec_set_field(bits, 16, 0xff, subcommand1 as u32), 0, 0xffff) == spec_field(bits, 0, 0xffff)) && (spec_field(spec_set_field(bits, 0, 0xffff, subcommand2 as u32), 24, 0xff) == spec_field(bits, 24, 0xff)) && (spec_field(spec_set_field(bits, 0, 0xffff, subcommand2 as u32), 16, 0xff) == spec_field(bits, 16, 0xff)) && (spec_field(spec_set_field(bits, 0, 0xffff, subcommand2 as u32), 0, 0xffff) == subcommand2 as u32)) by (bit_vector);
}

/// Register `command_buffer0`: its value has type `u32`, it can be read and it can be written.
pub struct COMMAND_BUFFER0_SPEC;

} // verus!
