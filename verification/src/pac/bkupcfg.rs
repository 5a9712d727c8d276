//! The backup configuration register of the power manager.

use vstd::prelude::*;
use super::generic::{ResetValue, Variant};

verus! {

/// The register, as the type parameter of its reader and its writer.
#[allow(non_camel_case_types)]
pub struct BKUPCFG {
    _marker: (),
}

/// Reader of register BKUPCFG
pub type R = super::generic::R<u8, BKUPCFG>;

/// Writer for register BKUPCFG
pub type W = super::generic::W<u8, BKUPCFG>;

/// Register BKUPCFG `reset()`'s with value 0
impl ResetValue for BKUPCFG {
    type Type = u8;

    open spec fn spec_reset_value() -> u8 {
        0
    }

    fn reset_value() -> (value: u8) {
        0
    }
}

/// Ram Configuration
///
/// Value on reset: 0
#[allow(non_camel_case_types)]
#[derive(Clone, Copy, Debug, PartialEq, Eq, Structural)]
pub enum BRAMCFG_A {
    /// 0: All the backup RAM is retained
    RET,
    /// 1: Only the first 4Kbytes of the backup RAM is retained
    PARTIAL,
    /// 2: All the backup RAM is turned OFF
    OFF,
}

impl BRAMCFG_A {
    /// The value of the field that stands for the variant.
    pub open spec fn spec_bits(self) -> u8 {
        match self {
            BRAMCFG_A::RET => 0,
            BRAMCFG_A::PARTIAL => 1,
            BRAMCFG_A::OFF => 2,
        }
    }

    /// The value of the field that stands for the variant.
    #[verifier::when_used_as_spec(spec_bits)]
    pub fn bits(self) -> (b: u8)
        ensures
            b == self.spec_bits(),
    {
        match self {
            BRAMCFG_A::RET => 0,
            BRAMCFG_A::PARTIAL => 1,
            BRAMCFG_A::OFF => 2,
        }
    }
}

impl From<BRAMCFG_A> for u8 {
    fn from(variant: BRAMCFG_A) -> (bits: u8) {
        variant.bits()
    }
}

impl vstd::std_specs::convert::FromSpecImpl<BRAMCFG_A> for u8 {
    open spec fn obeys_from_spec() -> bool {
        true
    }

    open spec fn from_spec(variant: BRAMCFG_A) -> u8 {
        variant.spec_bits()
    }
}

/// The value of the register with `value` written to the field `BRAMCFG`,
/// bits 0 and 1: the other bits stay, and of `value` only the low two bits
/// count.
pub open spec fn with_bramcfg(bits: u8, value: u8) -> u8 {
    (bits & !0x03u8) | (value & 0x03u8)
}

/// Reader of field `BRAMCFG`
#[allow(non_camel_case_types)]
pub type BRAMCFG_R = super::generic::R<u8, BRAMCFG_A>;

impl BRAMCFG_R {
    /// Get enumerated values variant
    pub fn variant(&self) -> (v: Variant<u8, BRAMCFG_A>)
        ensures
            v == match self.bits {
                0 => Variant::<u8, BRAMCFG_A>::Val(BRAMCFG_A::RET),
                1 => Variant::<u8, BRAMCFG_A>::Val(BRAMCFG_A::PARTIAL),
                2 => Variant::<u8, BRAMCFG_A>::Val(BRAMCFG_A::OFF),
                i => Variant::<u8, BRAMCFG_A>::Res(i),
            },
    {
        match self.bits {
            0 => Variant::Val(BRAMCFG_A::RET),
            1 => Variant::Val(BRAMCFG_A::PARTIAL),
            2 => Variant::Val(BRAMCFG_A::OFF),
            i => Variant::Res(i),
        }
    }

    /// Checks if the value of the field is `RET`
    pub fn is_ret(&self) -> (b: bool)
        ensures
            b == (self.bits == BRAMCFG_A::RET.spec_bits()),
    {
        self.bits == BRAMCFG_A::RET.bits()
    }

    /// Checks if the value of the field is `PARTIAL`
    pub fn is_partial(&self) -> (b: bool)
        ensures
            b == (self.bits == BRAMCFG_A::PARTIAL.spec_bits()),
    {
        self.bits == BRAMCFG_A::PARTIAL.bits()
    }

    /// Checks if the value of the field is `OFF`
    pub fn is_off(&self) -> (b: bool)
        ensures
            b == (self.bits == BRAMCFG_A::OFF.spec_bits()),
    {
        self.bits == BRAMCFG_A::OFF.bits()
    }
}

/// Write proxy for field `BRAMCFG`
#[allow(non_camel_case_types)]
pub struct BRAMCFG_W<'a> {
    w: &'a mut W,
}

impl<'a> BRAMCFG_W<'a> {
    /// The writer that the proxy writes to.
    pub closed spec fn writer(self) -> &'a mut W {
        self.w
    }

    /// Writes `variant` to the field
    pub fn variant(self, variant: BRAMCFG_A) -> (w: &'a mut W)
        ensures
            w.bits == with_bramcfg(old(self.writer()).bits, variant.spec_bits()),
            *final(self.writer()) == *final(w),
    {
        self.bits(variant.into())
    }

    /// All the backup RAM is retained
    pub fn ret(self) -> (w: &'a mut W)
        ensures
            w.bits == with_bramcfg(old(self.writer()).bits, BRAMCFG_A::RET.spec_bits()),
            *final(self.writer()) == *final(w),
    {
        self.variant(BRAMCFG_A::RET)
    }

    /// Only the first 4Kbytes of the backup RAM is retained
    pub fn partial(self) -> (w: &'a mut W)
        ensures
            w.bits == with_bramcfg(old(self.writer()).bits, BRAMCFG_A::PARTIAL.spec_bits()),
            *final(self.writer()) == *final(w),
    {
        self.variant(BRAMCFG_A::PARTIAL)
    }

    /// All the backup RAM is turned OFF
    pub fn off(self) -> (w: &'a mut W)
        ensures
            w.bits == with_bramcfg(old(self.writer()).bits, BRAMCFG_A::OFF.spec_bits()),
            *final(self.writer()) == *final(w),
    {
        self.variant(BRAMCFG_A::OFF)
    }

    /// Writes raw bits to the field
    pub fn bits(self, value: u8) -> (w: &'a mut W)
        ensures
            w.bits == with_bramcfg(old(self.writer()).bits, value),
            *final(self.writer()) == *final(w),
    {
        self.w.bits = (self.w.bits & !0x03) | (value & 0x03);
        self.w
    }
}

impl R {
    /// Bits 0:1 - Ram Configuration
    pub fn bramcfg(&self) -> (r: BRAMCFG_R)
        ensures
            r.bits == self.bits & 0x03,
    {
        BRAMCFG_R::new(self.bits & 0x03)
    }
}

impl W {
    /// Bits 0:1 - Ram Configuration
    pub fn bramcfg(&mut self) -> (p: BRAMCFG_W)
        ensures
            *p.writer() == *old(self),
            *final(self) == *final(p.writer()),
    {
        BRAMCFG_W { w: self }
    }
}

/// What is written to the field is what is read of it afterwards, and a
/// write to the field leaves the other bits of the register as they were.
pub proof fn bramcfg_written_is_read(bits: u8, variant: BRAMCFG_A)
    ensures
        with_bramcfg(bits, variant.spec_bits()) & 0x03 == variant.spec_bits(),
        with_bramcfg(bits, variant.spec_bits()) & !0x03u8 == bits & !0x03u8,
{
    let v = variant.spec_bits();
    assert(v < 4);
    assert(((bits & !0x03u8) | (v & 0x03u8)) & 0x03 == v) by (bit_vector)
        requires
            v < 4,
    ;
    assert(((bits & !0x03u8) | (v & 0x03u8)) & !0x03u8 == bits & !0x03u8) by (bit_vector);
}

} // verus!
