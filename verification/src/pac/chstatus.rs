//! The status register of a DMA channel.

use vstd::prelude::*;
use super::generic::ResetValue;

verus! {

/// The register, as the type parameter of its reader and its writer.
#[allow(non_camel_case_types)]
pub struct CHSTATUS {
    _marker: (),
}

/// Reader of register CHSTATUS%s
pub type R = super::generic::R<u8, CHSTATUS>;

/// Writer for register CHSTATUS%s
pub type W = super::generic::W<u8, CHSTATUS>;

/// Register CHSTATUS%s `reset()`'s with value 0
impl ResetValue for CHSTATUS {
    type Type = u8;

    open spec fn spec_reset_value() -> u8 {
        0
    }

    fn reset_value() -> (value: u8) {
        0
    }
}

/// Reader of field `PEND`
#[allow(non_camel_case_types)]
pub type PEND_R = super::generic::R<bool, bool>;

/// Reader of field `BUSY`
#[allow(non_camel_case_types)]
pub type BUSY_R = super::generic::R<bool, bool>;

/// Reader of field `FERR`
#[allow(non_camel_case_types)]
pub type FERR_R = super::generic::R<bool, bool>;

/// Reader of field `CRCERR`
#[allow(non_camel_case_types)]
pub type CRCERR_R = super::generic::R<bool, bool>;

/// The value of the register with the field `CRCERR`, bit 3, set or clear:
/// the other bits stay.
pub open spec fn with_crcerr(bits: u8, value: bool) -> u8 {
    (bits & !(0x01u8 << 3)) | (((if value {
        1u8
    } else {
        0u8
    }) & 0x01) << 3)
}

/// Write proxy for field `CRCERR`
#[allow(non_camel_case_types)]
pub struct CRCERR_W<'a> {
    w: &'a mut W,
}

impl<'a> CRCERR_W<'a> {
    /// The writer that the proxy writes to.
    pub closed spec fn writer(self) -> &'a mut W {
        self.w
    }

    /// Sets the field bit
    pub fn set_bit(self) -> (w: &'a mut W)
        ensures
            w.bits == with_crcerr(old(self.writer()).bits, true),
            *final(self.writer()) == *final(w),
    {
        self.bit(true)
    }

    /// Clears the field bit
    pub fn clear_bit(self) -> (w: &'a mut W)
        ensures
            w.bits == with_crcerr(old(self.writer()).bits, false),
            *final(self.writer()) == *final(w),
    {
        self.bit(false)
    }

    /// Writes raw bits to the field
    pub fn bit(self, value: bool) -> (w: &'a mut W)
        ensures
            w.bits == with_crcerr(old(self.writer()).bits, value),
            *final(self.writer()) == *final(w),
    {
        let v: u8 = if value {
            1
        } else {
            0
        };
        self.w.bits = (self.w.bits & !(0x01 << 3)) | ((v & 0x01) << 3);
        self.w
    }
}

impl R {
    /// Bit 0 - Channel Pending
    pub fn pend(&self) -> (r: PEND_R)
        ensures
            r.bits == ((self.bits & 0x01) != 0),
    {
        PEND_R::new((self.bits & 0x01) != 0)
    }

    /// Bit 1 - Channel Busy
    pub fn busy(&self) -> (r: BUSY_R)
        ensures
            r.bits == (((self.bits >> 1) & 0x01) != 0),
    {
        BUSY_R::new(((self.bits >> 1) & 0x01) != 0)
    }

    /// Bit 2 - Channel Fetch Error
    pub fn ferr(&self) -> (r: FERR_R)
        ensures
            r.bits == (((self.bits >> 2) & 0x01) != 0),
    {
        FERR_R::new(((self.bits >> 2) & 0x01) != 0)
    }

    /// Bit 3 - Channel CRC Error
    pub fn crcerr(&self) -> (r: CRCERR_R)
        ensures
            r.bits == (((self.bits >> 3) & 0x01) != 0),
    {
        CRCERR_R::new(((self.bits >> 3) & 0x01) != 0)
    }
}

impl W {
    /// Bit 3 - Channel CRC Error
    pub fn crcerr(&mut self) -> (p: CRCERR_W)
        ensures
            *p.writer() == *old(self),
            *final(self) == *final(p.writer()),
    {
        CRCERR_W { w: self }
    }
}

/// What is written to the field `CRCERR` is what is read of it afterwards,
/// and a write to the field leaves the other bits of the register, the
/// pending, busy and fetch-error bits among them, as they were.
pub proof fn crcerr_written_is_read(bits: u8, value: bool)
    ensures
        (((with_crcerr(bits, value) >> 3) & 0x01) != 0) == value,
        with_crcerr(bits, value) & !(0x01u8 << 3) == bits & !(0x01u8 << 3),
        with_crcerr(bits, value) & 0x01 == bits & 0x01,
        (with_crcerr(bits, value) >> 1) & 0x01 == (bits >> 1) & 0x01,
        (with_crcerr(bits, value) >> 2) & 0x01 == (bits >> 2) & 0x01,
{
    let v: u8 = if value {
        1u8
    } else {
        0u8
    };
    let w: u8 = (bits & !(0x01u8 << 3)) | ((v & 0x01) << 3);
    assert(w == with_crcerr(bits, value));
    assert(((w >> 3) & 0x01) == v) by (bit_vector)
        requires
            w == (bits & !(0x01u8 << 3)) | ((v & 0x01) << 3),
            v < 2,
    ;
    assert(w & !(0x01u8 << 3) == bits & !(0x01u8 << 3)) by (bit_vector)
        requires
            w == (bits & !(0x01u8 << 3)) | ((v & 0x01) << 3),
    ;
    assert(w & 0x01 == bits & 0x01 && (w >> 1) & 0x01 == (bits >> 1) & 0x01 && (w >> 2) & 0x01 == (
    bits >> 2) & 0x01) by (bit_vector)
        requires
            w == (bits & !(0x01u8 << 3)) | ((v & 0x01) << 3),
    ;
}

} // verus!
