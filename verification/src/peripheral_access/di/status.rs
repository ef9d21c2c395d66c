//! Reader and writer for the `status` register.
#![allow(non_camel_case_types)]
use vstd::prelude::*;

#[allow(unused_imports)]
use crate::peripheral_access::{spec_field, spec_set_field};

verus! {

/// Register `status` reader: the value read from the register.
pub struct R {
    bits: u32,
}

impl View for R {
    type V = u32;

    closed spec fn view(&self) -> u32 {
        self.bits
    }
}

impl R {
    /// Wraps a value read from the register.
    pub fn from_bits(bits: u32) -> (r: R)
        ensures
            r@ == bits,
    {
        R { bits }
    }

    /// The raw value of the register.
    pub fn bits(&self) -> (r: u32)
        ensures
            r == self@,
    {
        self.bits
    }
}

/// Register `status` writer: the value that will be written to the register.
pub struct W {
    bits: u32,
}

impl View for W {
    type V = u32;

    closed spec fn view(&self) -> u32 {
        self.bits
    }
}

impl W {
    /// Starts from the given register value.
    pub fn from_bits(bits: u32) -> (r: W)
        ensures
            r@ == bits,
    {
        W { bits }
    }

    /// The value that will be written.
    pub fn to_bits(&self) -> (r: u32)
        ensures
            r == self@,
    {
        self.bits
    }

    /// Writes raw bits to the register.
    pub fn bits(&mut self, bits: u32) -> (r: &mut Self)
        ensures
            r@ == bits,
            final(self)@ == final(r)@,
    {
        self.bits = bits;
        self
    }
}

/// Field `break_complete_asserted` reader.
pub struct BREAK_COMPLETE_ASSERTED_R {
    bits: bool,
}

impl View for BREAK_COMPLETE_ASSERTED_R {
    type V = bool;

    closed spec fn view(&self) -> bool {
        self.bits
    }
}

impl BREAK_COMPLETE_ASSERTED_R {
    /// Wraps the value of the field.
    pub fn new(bits: bool) -> (r: Self)
        ensures
            r@ == bits,
    {
        BREAK_COMPLETE_ASSERTED_R { bits }
    }

    /// The value of the field.
    pub fn bit(&self) -> (r: bool)
        ensures
            r == self@,
    {
        self.bits
    }

    /// Whether the field is set.
    pub fn bit_is_set(&self) -> (r: bool)
        ensures
            r == self@,
    {
        self.bits
    }

    /// Whether the field is clear.
    pub fn bit_is_clear(&self) -> (r: bool)
        ensures
            r == !self@,
    {
        !self.bits
    }
}

/// Field `ack_break_complete` writer: bit 6 of the register.
pub struct ACK_BREAK_COMPLETE_W<'a> {
    /// The register value being built.
    pub w: &'a mut W,
}

impl<'a> ACK_BREAK_COMPLETE_W<'a> {
    /// Sets the field bit.
    pub fn set_bit(self) -> (r: &'a mut W)
        ensures
            r@ == spec_set_field(old(self.w)@, 6, 1, 1),
            final(r)@ == final(self.w)@,
    {
        self.bit(true)
    }

    /// Clears the field bit.
    pub fn clear_bit(self) -> (r: &'a mut W)
        ensures
            r@ == spec_set_field(old(self.w)@, 6, 1, 0),
            final(r)@ == final(self.w)@,
    {
        self.bit(false)
    }

    /// Writes raw bits to the field.
    pub fn bit(self, value: bool) -> (r: &'a mut W)
        ensures
            r@ == spec_set_field(old(self.w)@, 6, 1, if value { 1 } else { 0 }),
            final(r)@ == final(self.w)@,
    {
        let v: u32 = if value { 1 } else { 0 };
        self.w.bits = (self.w.bits & !(0x01u32 << 6u32)) | ((v & 0x01) << 6u32);
        self.w
    }
}

/// Field `break_complete_mask` reader.
pub struct BREAK_COMPLETE_MASK_R {
    bits: bool,
}

impl View for BREAK_COMPLETE_MASK_R {
    type V = bool;

    closed spec fn view(&self) -> bool {
        self.bits
    }
}

impl BREAK_COMPLETE_MASK_R {
    /// Wraps the value of the field.
    pub fn new(bits: bool) -> (r: Self)
        ensures
            r@ == bits,
    {
        BREAK_COMPLETE_MASK_R { bits }
    }

    /// The value of the field.
    pub fn bit(&self) -> (r: bool)
        ensures
            r == self@,
    {
        self.bits
    }

    /// Whether the field is set.
    pub fn bit_is_set(&self) -> (r: bool)
        ensures
            r == self@,
    {
        self.bits
    }

    /// Whether the field is clear.
    pub fn bit_is_clear(&self) -> (r: bool)
        ensures
            r == !self@,
    {
        !self.bits
    }
}

/// Field `break_complete_mask` writer: bit 5 of the register.
pub struct BREAK_COMPLETE_MASK_W<'a> {
    /// The register value being built.
    pub w: &'a mut W,
}

impl<'a> BREAK_COMPLETE_MASK_W<'a> {
    /// Sets the field bit.
    pub fn set_bit(self) -> (r: &'a mut W)
        ensures
            r@ == spec_set_field(old(self.w)@, 5, 1, 1),
            final(r)@ == final(self.w)@,
    {
        self.bit(true)
    }

    /// Clears the field bit.
    pub fn clear_bit(self) -> (r: &'a mut W)
        ensures
            r@ == spec_set_field(old(self.w)@, 5, 1, 0),
            final(r)@ == final(self.w)@,
    {
        self.bit(false)
    }

    /// Writes raw bits to the field.
    pub fn bit(self, value: bool) -> (r: &'a mut W)
        ensures
            r@ == spec_set_field(old(self.w)@, 5, 1, if value { 1 } else { 0 }),
            final(r)@ == final(self.w)@,
    {
        let v: u32 = if value { 1 } else { 0 };
        self.w.bits = (self.w.bits & !(0x01u32 << 5u32)) | ((v & 0x01) << 5u32);
        self.w
    }
}

/// Field `transfer_complete_asserted` reader.
pub struct TRANSFER_COMPLETE_ASSERTED_R {
    bits: bool,
}

impl View for TRANSFER_COMPLETE_ASSERTED_R {
    type V = bool;

    closed spec fn view(&self) -> bool {
        self.bits
    }
}

impl TRANSFER_COMPLETE_ASSERTED_R {
    /// Wraps the value of the field.
    pub fn new(bits: bool) -> (r: Self)
        ensures
            r@ == bits,
    {
        TRANSFER_COMPLETE_ASSERTED_R { bits }
    }

    /// The value of the field.
    pub fn bit(&self) -> (r: bool)
        ensures
            r == self@,
    {
        self.bits
    }

    /// Whether the field is set.
    pub fn bit_is_set(&self) -> (r: bool)
        ensures
            r == self@,
    {
        self.bits
    }

    /// Whether the field is clear.
    pub fn bit_is_clear(&self) -> (r: bool)
        ensures
            r == !self@,
    {
        !self.bits
    }
}

/// Field `ack_transfer_complete` writer: bit 4 of the register.
pub struct ACK_TRANSFER_COMPLETE_W<'a> {
    /// The register value being built.
    pub w: &'a mut W,
}

impl<'a> ACK_TRANSFER_COMPLETE_W<'a> {
    /// Sets the field bit.
    pub fn set_bit(self) -> (r: &'a mut W)
        ensures
            r@ == spec_set_field(old(self.w)@, 4, 1, 1),
            final(r)@ == final(self.w)@,
    {
        self.bit(true)
    }

    /// Clears the field bit.
    pub fn clear_bit(self) -> (r: &'a mut W)
        ensures
            r@ == spec_set_field(old(self.w)@, 4, 1, 0),
            final(r)@ == final(self.w)@,
    {
        self.bit(false)
    }

    /// Writes raw bits to the field.
    pub fn bit(self, value: bool) -> (r: &'a mut W)
        ensures
            r@ == spec_set_field(old(self.w)@, 4, 1, if value { 1 } else { 0 }),
            final(r)@ == final(self.w)@,
    {
        let v: u32 = if value { 1 } else { 0 };
        self.w.bits = (self.w.bits & !(0x01u32 << 4u32)) | ((v & 0x01) << 4u32);
        self.w
    }
}

/// Field `transfer_complete_mask` reader.
pub struct TRANSFER_COMPLETE_MASK_R {
    bits: bool,
}

impl View for TRANSFER_COMPLETE_MASK_R {
    type V = bool;

    closed spec fn view(&self) -> bool {
        self.bits
    }
}

impl TRANSFER_COMPLETE_MASK_R {
    /// Wraps the value of the field.
    pub fn new(bits: bool) -> (r: Self)
        ensures
            r@ == bits,
    {
        TRANSFER_COMPLETE_MASK_R { bits }
    }

    /// The value of the field.
    pub fn bit(&self) -> (r: bool)
        ensures
            r == self@,
    {
        self.bits
    }

    /// Whether the field is set.
    pub fn bit_is_set(&self) -> (r: bool)
        ensures
            r == self@,
    {
        self.bits
    }

    /// Whether the field is clear.
    pub fn bit_is_clear(&self) -> (r: bool)
        ensures
            r == !self@,
    {
        !self.bits
    }
}

/// Field `transfer_complete_mask` writer: bit 3 of the register.
pub struct TRANSFER_COMPLETE_MASK_W<'a> {
    /// The register value being built.
    pub w: &'a mut W,
}

impl<'a> TRANSFER_COMPLETE_MASK_W<'a> {
    /// Sets the field bit.
    pub fn set_bit(self) -> (r: &'a mut W)
        ensures
            r@ == spec_set_field(old(self.w)@, 3, 1, 1),
            final(r)@ == final(self.w)@,
    {
        self.bit(true)
    }

    /// Clears the field bit.
    pub fn clear_bit(self) -> (r: &'a mut W)
        ensures
            r@ == spec_set_field(old(self.w)@, 3, 1, 0),
            final(r)@ == final(self.w)@,
    {
        self.bit(false)
    }

    /// Writes raw bits to the field.
    pub fn bit(self, value: bool) -> (r: &'a mut W)
        ensures
            r@ == spec_set_field(old(self.w)@, 3, 1, if value { 1 } else { 0 }),
            final(r)@ == final(self.w)@,
    {
        let v: u32 = if value { 1 } else { 0 };
        self.w.bits = (self.w.bits & !(0x01u32 << 3u32)) | ((v & 0x01) << 3u32);
        self.w
    }
}

/// Field `device_error_asserted` reader.
pub struct DEVICE_ERROR_ASSERTED_R {
    bits: bool,
}

impl View for DEVICE_ERROR_ASSERTED_R {
    type V = bool;

    closed spec fn view(&self) -> bool {
        self.bits
    }
}

impl DEVICE_ERROR_ASSERTED_R {
    /// Wraps the value of the field.
    pub fn new(bits: bool) -> (r: Self)
        ensures
            r@ == bits,
    {
        DEVICE_ERROR_ASSERTED_R { bits }
    }

    /// The value of the field.
    pub fn bit(&self) -> (r: bool)
        ensures
            r == self@,
    {
        self.bits
    }

    /// Whether the field is set.
    pub fn bit_is_set(&self) -> (r: bool)
        ensures
            r == self@,
    {
        self.bits
    }

    /// Whether the field is clear.
    pub fn bit_is_clear(&self) -> (r: bool)
        ensures
            r == !self@,
    {
        !self.bits
    }
}

/// Field `ack_device_error` writer: bit 2 of the register.
pub struct ACK_DEVICE_ERROR_W<'a> {
    /// The register value being built.
    pub w: &'a mut W,
}

impl<'a> ACK_DEVICE_ERROR_W<'a> {
    /// Sets the field bit.
    pub fn set_bit(self) -> (r: &'a mut W)
        ensures
            r@ == spec_set_field(old(self.w)@, 2, 1, 1),
            final(r)@ == final(self.w)@,
    {
        self.bit(true)
    }

    /// Clears the field bit.
    pub fn clear_bit(self) -> (r: &'a mut W)
        ensures
            r@ == spec_set_field(old(self.w)@, 2, 1, 0),
            final(r)@ == final(self.w)@,
    {
        self.bit(false)
    }

    /// Writes raw bits to the field.
    pub fn bit(self, value: bool) -> (r: &'a mut W)
        ensures
            r@ == spec_set_field(old(self.w)@, 2, 1, if value { 1 } else { 0 }),
            final(r)@ == final(self.w)@,
    {
        let v: u32 = if value { 1 } else { 0 };
        self.w.bits = (self.w.bits & !(0x01u32 << 2u32)) | ((v & 0x01) << 2u32);
        self.w
    }
}

/// Field `device_error_mask` reader.
pub struct DEVICE_ERROR_MASK_R {
    bits: bool,
}

impl View for DEVICE_ERROR_MASK_R {
    type V = bool;

    closed spec fn view(&self) -> bool {
        self.bits
    }
}

impl DEVICE_ERROR_MASK_R {
    /// Wraps the value of the field.
    pub fn new(bits: bool) -> (r: Self)
        ensures
            r@ == bits,
    {
        DEVICE_ERROR_MASK_R { bits }
    }

    /// The value of the field.
    pub fn bit(&self) -> (r: bool)
        ensures
            r == self@,
    {
        self.bits
    }

    /// Whether the field is set.
    pub fn bit_is_set(&self) -> (r: bool)
        ensures
            r == self@,
    {
        self.bits
    }

    /// Whether the field is clear.
    pub fn bit_is_clear(&self) -> (r: bool)
        ensures
            r == !self@,
    {
        !self.bits
    }
}

/// Field `device_error_mask` writer: bit 1 of the register.
pub struct DEVICE_ERROR_MASK_W<'a> {
    /// The register value being built.
    pub w: &'a mut W,
}

impl<'a> DEVICE_ERROR_MASK_W<'a> {
    /// Sets the field bit.
    pub fn set_bit(self) -> (r: &'a mut W)
        ensures
            r@ == spec_set_field(old(self.w)@, 1, 1, 1),
            final(r)@ == final(self.w)@,
    {
        self.bit(true)
    }

    /// Clears the field bit.
    pub fn clear_bit(self) -> (r: &'a mut W)
        ensures
            r@ == spec_set_field(old(self.w)@, 1, 1, 0),
            final(r)@ == final(self.w)@,
    {
        self.bit(false)
    }

    /// Writes raw bits to the field.
    pub fn bit(self, value: bool) -> (r: &'a mut W)
        ensures
            r@ == spec_set_field(old(self.w)@, 1, 1, if value { 1 } else { 0 }),
            final(r)@ == final(self.w)@,
    {
        let v: u32 = if value { 1 } else { 0 };
        self.w.bits = (self.w.bits & !(0x01u32 << 1u32)) | ((v & 0x01) << 1u32);
        self.w
    }
}

/// Field `break_pending` reader.
pub struct BREAK_PENDING_R {
    bits: bool,
}

impl View for BREAK_PENDING_R {
    type V = bool;

    closed spec fn view(&self) -> bool {
        self.bits
    }
}

impl BREAK_PENDING_R {
    /// Wraps the value of the field.
    pub fn new(bits: bool) -> (r: Self)
        ensures
            r@ == bits,
    {
        BREAK_PENDING_R { bits }
    }

    /// The value of the field.
    pub fn bit(&self) -> (r: bool)
        ensures
            r == self@,
    {
        self.bits
    }

    /// Whether the field is set.
    pub fn bit_is_set(&self) -> (r: bool)
        ensures
            r == self@,
    {
        self.bits
    }

    /// Whether the field is clear.
    pub fn bit_is_clear(&self) -> (r: bool)
        ensures
            r == !self@,
    {
        !self.bits
    }
}

/// Field `request_break` writer: bit 0 of the register.
pub struct REQUEST_BREAK_W<'a> {
    /// The register value being built.
    pub w: &'a mut W,
}

impl<'a> REQUEST_BREAK_W<'a> {
    /// Sets the field bit.
    pub fn set_bit(self) -> (r: &'a mut W)
        ensures
            r@ == spec_set_field(old(self.w)@, 0, 1, 1),
            final(r)@ == final(self.w)@,
    {
        self.bit(true)
    }

    /// Clears the field bit.
    pub fn clear_bit(self) -> (r: &'a mut W)
        ensures
            r@ == spec_set_field(old(self.w)@, 0, 1, 0),
            final(r)@ == final(self.w)@,
    {
        self.bit(false)
    }

    /// Writes raw bits to the field.
    pub fn bit(self, value: bool) -> (r: &'a mut W)
        ensures
            r@ == spec_set_field(old(self.w)@, 0, 1, if value { 1 } else { 0 }),
            final(r)@ == final(self.w)@,
    {
        let v: u32 = if value { 1 } else { 0 };
        self.w.bits = (self.w.bits & !(0x01u32 << 0u32)) | ((v & 0x01) << 0u32);
        self.w
    }
}

impl R {
    /// Bit 6.
    pub fn break_complete_asserted(&self) -> (r: BREAK_COMPLETE_ASSERTED_R)
        ensures
            r@ == (spec_field(self@, 6, 1) != 0),
    {
        BREAK_COMPLETE_ASSERTED_R::new(((self.bits >> 6u32) & 0x01) != 0)
    }

    /// Bit 5.
    pub fn break_complete_mask(&self) -> (r: BREAK_COMPLETE_MASK_R)
        ensures
            r@ == (spec_field(self@, 5, 1) != 0),
    {
        BREAK_COMPLETE_MASK_R::new(((self.bits >> 5u32) & 0x01) != 0)
    }

    /// Bit 4.
    pub fn transfer_complete_asserted(&self) -> (r: TRANSFER_COMPLETE_ASSERTED_R)
        ensures
            r@ == (spec_field(self@, 4, 1) != 0),
    {
        TRANSFER_COMPLETE_ASSERTED_R::new(((self.bits >> 4u32) & 0x01) != 0)
    }

    /// Bit 3.
    pub fn transfer_complete_mask(&self) -> (r: TRANSFER_COMPLETE_MASK_R)
        ensures
            r@ == (spec_field(self@, 3, 1) != 0),
    {
        TRANSFER_COMPLETE_MASK_R::new(((self.bits >> 3u32) & 0x01) != 0)
    }

    /// Bit 2.
    pub fn device_error_asserted(&self) -> (r: DEVICE_ERROR_ASSERTED_R)
        ensures
            r@ == (spec_field(self@, 2, 1) != 0),
    {
        DEVICE_ERROR_ASSERTED_R::new(((self.bits >> 2u32) & 0x01) != 0)
    }

    /// Bit 1.
    pub fn device_error_mask(&self) -> (r: DEVICE_ERROR_MASK_R)
        ensures
            r@ == (spec_field(self@, 1, 1) != 0),
    {
        DEVICE_ERROR_MASK_R::new(((self.bits >> 1u32) & 0x01) != 0)
    }

    /// Bit 0.
    pub fn break_pending(&self) -> (r: BREAK_PENDING_R)
        ensures
            r@ == (spec_field(self@, 0, 1) != 0),
    {
        BREAK_PENDING_R::new(((self.bits >> 0u32) & 0x01) != 0)
    }
}

impl W {
    /// The writer for the field at bit 6.
    pub fn ack_break_complete(&mut self) -> (r: ACK_BREAK_COMPLETE_W<'_>)
        ensures
            r.w@ == old(self)@,
            final(self)@ == final(r.w)@,
    {
        ACK_BREAK_COMPLETE_W { w: self }
    }

    /// The writer for the field at bit 5.
    pub fn break_complete_mask(&mut self) -> (r: BREAK_COMPLETE_MASK_W<'_>)
        ensures
            r.w@ == old(self)@,
            final(self)@ == final(r.w)@,
    {
        BREAK_COMPLETE_MASK_W { w: self }
    }

    /// The writer for the field at bit 4.
    pub fn ack_transfer_complete(&mut self) -> (r: ACK_TRANSFER_COMPLETE_W<'_>)
        ensures
            r.w@ == old(self)@,
            final(self)@ == final(r.w)@,
    {
        ACK_TRANSFER_COMPLETE_W { w: self }
    }

    /// The writer for the field at bit 3.
    pub fn transfer_complete_mask(&mut self) -> (r: TRANSFER_COMPLETE_MASK_W<'_>)
        ensures
            r.w@ == old(self)@,
            final(self)@ == final(r.w)@,
    {
        TRANSFER_COMPLETE_MASK_W { w: self }
    }

    /// The writer for the field at bit 2.
    pub fn ack_device_error(&mut self) -> (r: ACK_DEVICE_ERROR_W<'_>)
        ensures
            r.w@ == old(self)@,
            final(self)@ == final(r.w)@,
    {
        ACK_DEVICE_ERROR_W { w: self }
    }

    /// The writer for the field at bit 1.
    pub fn device_error_mask(&mut self) -> (r: DEVICE_ERROR_MASK_W<'_>)
        ensures
            r.w@ == old(self)@,
            final(self)@ == final(r.w)@,
    {
        DEVICE_ERROR_MASK_W { w: self }
    }

    /// The writer for the field at bit 0.
    pub fn request_break(&mut self) -> (r: REQUEST_BREAK_W<'_>)
        ensures
            r.w@ == old(self)@,
            final(self)@ == final(r.w)@,
    {
        REQUEST_BREAK_W { w: self }
    }
}

/// Writing any one field and reading the register back gives the written value in that field
/// and leaves every other field unchanged.
pub proof fn lemma_write_then_read(bits: u32, break_complete: bool, break_complete_mask: bool, transfer_complete: bool, transfer_complete_mask: bool, device_error: bool, device_error_mask: bool, break_request: bool)
    ensures
        (spec_field(spec_set_field(bits, 6, 1, if break_complete { 1 } else { 0 }), 6, 1) != 0) == break_complete,
        spec_field(spec_set_field(bits, 6, 1, if break_complete { 1 } else { 0 }), 5, 1) == spec_field(bits, 5, 1),
        spec_field(spec_set_field(bits, 6, 1, if break_complete { 1 } else { 0 }), 4, 1) == spec_field(bits, 4, 1),
        spec_field(spec_set_field(bits, 6, 1, if break_complete { 1 } else { 0 }), 3, 1) == spec_field(bits, 3, 1),
        spec_field(spec_set_field(bits, 6, 1, if break_complete { 1 } else { 0 }), 2, 1) == spec_field(bits, 2, 1),
        spec_field(spec_set_field(bits, 6, 1, if break_complete { 1 } else { 0 }), 1, 1) == spec_field(bits, 1, 1),
        spec_field(spec_set_field(bits, 6, 1, if break_complete { 1 } else { 0 }), 0, 1) == spec_field(bits, 0, 1),
        spec_field(spec_set_field(bits, 5, 1, if break_complete_mask { 1 } else { 0 }), 6, 1) == spec_field(bits, 6, 1),
        (spec_field(spec_set_field(bits, 5, 1, if break_complete_mask { 1 } else { 0 }), 5, 1) != 0) == break_complete_mask,
        spec_field(spec_set_field(bits, 5, 1, if break_complete_mask { 1 } else { 0 }), 4, 1) == spec_field(bits, 4, 1),
        spec_field(spec_set_field(bits, 5, 1, if break_complete_mask { 1 } else { 0 }), 3, 1) == spec_field(bits, 3, 1),
        spec_field(spec_set_field(bits, 5, 1, if break_complete_mask { 1 } else { 0 }), 2, 1) == spec_field(bits, 2, 1),
        spec_field(spec_set_field(bits, 5, 1, if break_complete_mask { 1 } else { 0 }), 1, 1) == spec_field(bits, 1, 1),
        spec_field(spec_set_field(bits, 5, 1, if break_complete_mask { 1 } else { 0 }), 0, 1) == spec_field(bits, 0, 1),
        spec_field(spec_set_field(bits, 4, 1, if transfer_complete { 1 } else { 0 }), 6, 1) == spec_field(bits, 6, 1),
        spec_field(spec_set_field(bits, 4, 1, if transfer_complete { 1 } else { 0 }), 5, 1) == spec_field(bits, 5, 1),
        (spec_field(spec_set_field(bits, 4, 1, if transfer_complete { 1 } else { 0 }), 4, 1) != 0) == transfer_complete,
        spec_field(spec_set_field(bits, 4, 1, if transfer_complete { 1 } else { 0 }), 3, 1) == spec_field(bits, 3, 1),
        spec_field(spec_set_field(bits, 4, 1, if transfer_complete { 1 } else { 0 }), 2, 1) == spec_field(bits, 2, 1),
        spec_field(spec_set_field(bits, 4, 1, if transfer_complete { 1 } else { 0 }), 1, 1) == spec_field(bits, 1, 1),
        spec_field(spec_set_field(bits, 4, 1, if transfer_complete { 1 } else { 0 }), 0, 1) == spec_field(bits, 0, 1),
        spec_field(spec_set_field(bits, 3, 1, if transfer_complete_mask { 1 } else { 0 }), 6, 1) == spec_field(bits, 6, 1),
        spec_field(spec_set_field(bits, 3, 1, if transfer_complete_mask { 1 } else { 0 }), 5, 1) == spec_field(bits, 5, 1),
        spec_field(spec_set_field(bits, 3, 1, if transfer_complete_mask { 1 } else { 0 }), 4, 1) == spec_field(bits, 4, 1),
        (spec_field(spec_set_field(bits, 3, 1, if transfer_complete_mask { 1 } else { 0 }), 3, 1) != 0) == transfer_complete_mask,
        spec_field(spec_set_field(bits, 3, 1, if transfer_complete_mask { 1 } else { 0 }), 2, 1) == spec_field(bits, 2, 1),
        spec_field(spec_set_field(bits, 3, 1, if transfer_complete_mask { 1 } else { 0 }), 1, 1) == spec_field(bits, 1, 1),
        spec_field(spec_set_field(bits, 3, 1, if transfer_complete_mask { 1 } else { 0 }), 0, 1) == spec_field(bits, 0, 1),
        spec_field(spec_set_field(bits, 2, 1, if device_error { 1 } else { 0 }), 6, 1) == spec_field(bits, 6, 1),
        spec_field(spec_set_field(bits, 2, 1, if device_error { 1 } else { 0 }), 5, 1) == spec_field(bits, 5, 1),
        spec_field(spec_set_field(bits, 2, 1, if device_error { 1 } else { 0 }), 4, 1) == spec_field(bits, 4, 1),
        spec_field(spec_set_field(bits, 2, 1, if device_error { 1 } else { 0 }), 3, 1) == spec_field(bits, 3, 1),
        (spec_field(spec_set_field(bits, 2, 1, if device_error { 1 } else { 0 }), 2, 1) != 0) == device_error,
        spec_field(spec_set_field(bits, 2, 1, if device_error { 1 } else { 0 }), 1, 1) == spec_field(bits, 1, 1),
        spec_field(spec_set_field(bits, 2, 1, if device_error { 1 } else { 0 }), 0, 1) == spec_field(bits, 0, 1),
        spec_field(spec_set_field(bits, 1, 1, if device_error_mask { 1 } else { 0 }), 6, 1) == spec_field(bits, 6, 1),
        spec_field(spec_set_field(bits, 1, 1, if device_error_mask { 1 } else { 0 }), 5, 1) == spec_field(bits, 5, 1),
        spec_field(spec_set_field(bits, 1, 1, if device_error_mask { 1 } else { 0 }), 4, 1) == spec_field(bits, 4, 1),
        spec_field(spec_set_field(bits, 1, 1, if device_error_mask { 1 } else { 0 }), 3, 1) == spec_field(bits, 3, 1),
        spec_field(spec_set_field(bits, 1, 1, if device_error_mask { 1 } else { 0 }), 2, 1) == spec_field(bits, 2, 1),
        (spec_field(spec_set_field(bits, 1, 1, if device_error_mask { 1 } else { 0 }), 1, 1) != 0) == device_error_mask,
        spec_field(spec_set_field(bits, 1, 1, if device_error_mask { 1 } else { 0 }), 0, 1) == spec_field(bits, 0, 1),
        spec_field(spec_set_field(bits, 0, 1, if break_request { 1 } else { 0 }), 6, 1) == spec_field(bits, 6, 1),
        spec_field(spec_set_field(bits, 0, 1, if break_request { 1 } else { 0 }), 5, 1) == spec_field(bits, 5, 1),
        spec_field(spec_set_field(bits, 0, 1, if break_request { 1 } else { 0 }), 4, 1) == spec_field(bits, 4, 1),
        spec_field(spec_set_field(bits, 0, 1, if break_request { 1 } else { 0 }), 3, 1) == spec_field(bits, 3, 1),
        spec_field(spec_set_field(bits, 0, 1, if break_request { 1 } else { 0 }), 2, 1) == spec_field(bits, 2, 1),
        spec_field(spec_set_field(bits, 0, 1, if break_request { 1 } else { 0 }), 1, 1) == spec_field(bits, 1, 1),
        (spec_field(spec_set_field(bits, 0, 1, if break_request { 1 } else { 0 }), 0, 1) != 0) == break_request,
{
    assert(((spec_field(spec_set_field(bits, 6, 1, if break_complete { 1 } else { 0 }), 6, 1) != 0) == break_complete) && (spec_field(spec_set_field(bits, 6, 1, if break_complete { 1 } else { 0 }), 5, 1) == spec_field(bits, 5, 1)) && (spec_field(spec_set_field(bits, 6, 1, if break_complete { 1 } else { 0 }), 4, 1) == spec_field(bits, 4, 1)) && (spec_field(spec_set_field(bits, 6, 1, if break_complete { 1 } else { 0 }), 3, 1) == spec_field(bits, 3, 1)) && (spec_field(spec_set_field(bits, 6, 1, if break_complete { 1 } else { 0 }), 2, 1) == spec_field(bits, 2, 1)) && (spec_field(spec_set_field(bits, 6, 1, if break_complete { 1 } else { 0 }), 1, 1) == spec_field(bits, 1, 1)) && (spec_field(spec_set_field(bits, 6, 1, if break_complete { 1 } else { 0 }), 0, 1) == spec_field(bits, 0, 1)) && (spec_field(spec_set_field(bits, 5, 1, if break_complete_mask { 1 } else { 0 }), 6, 1) == spec_field(bits, 6, 1)) && ((spec_field(spec_set_field(bits, 5, 1, if break_complete_mask { 1 } else { 0 }), 5, 1) != 0) == break_complete_mask) && (spec_field(spec_set_field(bits, 5, 1, if break_complete_mask { 1 } else { 0 }), 4, 1) == spec_field(bits, 4, 1)) && (spec_field(spec_set_field(bits, 5, 1, if break_complete_mask { 1 } else { 0 }), 3, 1) == spec_field(bits, 3, 1)) && (spec_field(spec_set_field(bits, 5, 1, if break_complete_mask { 1 } else { 0 }), 2, 1) == spec_field(bits, 2, 1)) && (spec_field(spec_set_field(bits, 5, 1, if break_complete_mask { 1 } else { 0 }), 1, 1) == spec_field(bits, 1, 1)) && (spec_field(spec_set_field(bits, 5, 1, if break_complete_mask { 1 } else { 0 }), 0, 1) == spec_field(bits, 0, 1)) && (spec_field(spec_set_field(bits, 4, 1, if transfer_complete { 1 } else { 0 }), 6, 1) == spec_field(bits, 6, 1)) && (spec_field(spec_set_field(bits, 4, 1, if transfer_complete { 1 } else { 0 }), 5, 1) == spec_field(bits, 5, 1)) && ((spec_field(spec_set_field(bits, 4, 1, if transfer_complete { 1 } else { 0 }), 4, 1) != 0) == transfer_complete) && (spec_field(spec_set_field(bits, 4, 1, if transfer_complete { 1 } else { 0 }), 3, 1) == spec_field(bits, 3, 1)) && (spec_field(spec_set_field(bits, 4, 1, if transfer_complete { 1 } else { 0 }), 2, 1) == spec_field(bits, 2, 1)) && (spec_field(spec_set_field(bits, 4, 1, if transfer_complete { 1 } else { 0 }), 1, 1) == spec_field(bits, 1, 1)) && (spec_field(spec_set_field(bits, 4, 1, if transfer_complete { 1 } else { 0 }), 0, 1) == spec_field(bits, 0, 1)) && (spec_field(spec_set_field(bits, 3, 1, if transfer_complete_mask { 1 } else { 0 }), 6, 1) == spec_field(bits, 6, 1)) && (spec_field(spec_set_field(bits, 3, 1, if transfer_complete_mask { 1 } else { 0 }), 5, 1) == spec_field(bits, 5, 1)) && (spec_field(spec_set_field(bits, 3, 1, if transfer_complete_mask { 1 } else { 0 }), 4, 1) == spec_field(bits, 4, 1)) && ((spec_field(spec_set_field(bits, 3, 1, if transfer_complete_mask { 1 } else { 0 }), 3, 1) != 0) == transfer_complete_mask) && (spec_field(spec_set_field(bits, 3, 1, if transfer_complete_mask { 1 } else { 0 }), 2, 1) == spec_field(bits, 2, 1)) && (spec_field(spec_set_field(bits, 3, 1, if transfer_complete_mask { 1 } else { 0 }), 1, 1) == spec_field(bits, 1, 1)) && (spec_field(spec_set_field(bits, 3, 1, if transfer_complete_mask { 1 } else { 0 }), 0, 1) == spec_field(bits, 0, 1)) && (spec_field(spec_set_field(bits, 2, 1, if device_error { 1 } else { 0 }), 6, 1) == spec_field(bits, 6, 1)) && (spec_field(spec_set_field(bits, 2, 1, if device_error { 1 } else { 0 }), 5, 1) == spec_field(bits, 5, 1)) && (spec_field(spec_set_field(bits, 2, 1, if device_error { 1 } else { 0 }), 4, 1) == spec_field(bits, 4, 1)) && (spec_field(spec_set_field(bits, 2, 1, if device_error { 1 } else { 0 }), 3, 1) == spec_field(bits, 3, 1)) && ((spec_field(spec_set_field(bits, 2, 1, if device_error { 1 } else { 0 }), 2, 1) != 0) == device_error) && (spec_field(spec_set_field(bits, 2, 1, if device_error { 1 } else { 0 }), 1, 1) == spec_field(bits, 1, 1)) && (spec_field(spec_set_field(bits, 2, 1, if device_error { 1 } else { 0 }), 0, 1) == spec_field(bits, 0, 1)) && (spec_field(spec_set_field(bits, 1, 1, if device_error_mask { 1 } else { 0 }), 6, 1) == spec_field(bits, 6, 1)) && (spec_field(spec_set_field(bits, 1, 1, if device_error_mask { 1 } else { 0 }), 5, 1) == spec_field(bits, 5, 1)) && (spec_field(spec_set_field(bits, 1, 1, if device_error_mask { 1 } else { 0 }), 4, 1) == spec_field(bits, 4, 1)) && (spec_field(spec_set_field(bits, 1, 1, if device_error_mask { 1 } else { 0 }), 3, 1) == spec_field(bits, 3, 1)) && (spec_field(spec_set_field(bits, 1, 1, if device_error_mask { 1 } else { 0 }), 2, 1) == spec_field(bits, 2, 1)) && ((spec_field(spec_set_field(bits, 1, 1, if device_error_mask { 1 } else { 0 }), 1, 1) != 0) == device_error_mask) && (spec_field(spec_set_field(bits, 1, 1, if device_error_mask { 1 } else { 0 }), 0, 1) == spec_field(bits, 0, 1)) && (spec_field(spec_set_field(bits, 0, 1, if break_request { 1 } else { 0 }), 6, 1) == spec_field(bits, 6, 1)) && (spec_field(spec_set_field(bits, 0, 1, if break_request { 1 } else { 0 }), 5, 1) == spec_field(bits, 5, 1)) && (spec_field(spec_set_field(bits, 0, 1, if break_request { 1 } else { 0 }), 4, 1) == spec_field(bits, 4, 1)) && (spec_field(spec_set_field(bits, 0, 1, if break_request { 1 } else { 0 }), 3, 1) == spec_field(bits, 3, 1)) && (spec_field(spec_set_field(bits, 0, 1, if break_request { 1 } else { 0 }), 2, 1) == spec_field(bits, 2, 1)) && (spec_field(spec_set_field(bits, 0, 1, if break_request { 1 } else { 0 }), 1, 1) == spec_field(bits, 1, 1)) && ((spec_field(spec_set_field(bits, 0, 1, if break_request { 1 } else { 0 }), 0, 1) != 0) == break_request)) by (bit_vector);
}

/// Register `status`: its value has type `u32`, it can be read and it can be written.
pub struct STATUS_SPEC;

} // verus!
