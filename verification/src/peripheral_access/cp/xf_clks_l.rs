//! Reader and writer for the `XF_CLKS_L` register.
#![allow(non_camel_case_types)]
use vstd::prelude::*;

#[allow(unused_imports)]
use crate::peripheral_access::{spec_field, spec_set_field};

verus! {

/// Register `XF_CLKS_L` reader: the value read from the register.
pub struct R {
    bits: u16,
}

impl View for R {
    type V = u16;

    closed spec fn view(&self) -> u16 {
        self.bits
    }
}

impl R {
    /// Wraps a value read from the register.
    pub fn from_bits(bits: u16) -> (r: R)
        ensures
            r@ == bits,
    {
        R { bits }
    }

    /// The raw value of the register.
    pub fn bits(&self) -> (r: u16)
        ensures
            r == self@,
    {
        self.bits
    }
}

/// Register `XF_CLKS_L` writer: the value that will be written to the register.
pub struct W {
    bits: u16,
}

impl View for W {
    type V = u16;

    closed spec fn view(&self) -> u16 {
        self.bits
    }
}

impl W {
    /// Starts from the given register value.
    pub fn from_bits(bits: u16) -> (r: W)
        ensures
            r@ == bits,
    {
        W { bits }
    }

    /// The value that will be written.
    pub fn to_bits(&self) -> (r: u16)
        ensures
            r == self@,
    {
        self.bits
    }

    /// Writes raw bits to the register.
    pub fn bits(&mut self, bits: u16) -> (r: &mut Self)
        ensures
            r@ == bits,
            final(self)@ == final(r)@,
    {
        self.bits = bits;
        self
    }
}

/// Register `XF_CLKS_L`: its value has type `u16`, it can be read and it can be written.
pub struct XF_CLKS_L_SPEC;

} // verus!
