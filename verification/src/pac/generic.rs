//! Readers and writers of registers and of their fields.

use vstd::prelude::*;
use core::marker::PhantomData;

verus! {

/// The value that a register holds after a reset.
pub trait ResetValue {
    /// The type of the register's value.
    type Type;

    /// The value that the register holds after a reset.
    spec fn spec_reset_value() -> Self::Type;

    /// The value that the register holds after a reset.
    fn reset_value() -> (value: Self::Type)
        ensures
            value == Self::spec_reset_value(),
    ;
}

/// What was read of a register or of a field: `T` says of which.
pub struct R<U, T> {
    pub bits: U,
    pub _reg: PhantomData<T>,
}

impl<U: Copy, T> R<U, T> {
    /// A reader of `bits`.
    pub fn new(bits: U) -> (r: R<U, T>)
        ensures
            r.bits == bits,
    {
        R { bits, _reg: PhantomData }
    }

    /// The raw bits that were read.
    pub fn bits(&self) -> (bits: U)
        ensures
            bits == self.bits,
    {
        self.bits
    }
}

impl<FI> R<bool, FI> {
    /// The value of the bit.
    pub fn bit(&self) -> (b: bool)
        ensures
            b == self.bits,
    {
        self.bits
    }

    /// Whether the bit is clear.
    pub fn bit_is_clear(&self) -> (b: bool)
        ensures
            b == !self.bits,
    {
        !self.bits
    }

    /// Whether the bit is set.
    pub fn bit_is_set(&self) -> (b: bool)
        ensures
            b == self.bits,
    {
        self.bits
    }
}

/// What is to be written to a register: `REG` says to which.
pub struct W<U, REG> {
    pub bits: U,
    pub _reg: PhantomData<REG>,
}

impl<U: Copy, REG> W<U, REG> {
    /// A writer that starts from `bits`.
    pub fn new(bits: U) -> (w: W<U, REG>)
        ensures
            w.bits == bits,
    {
        W { bits, _reg: PhantomData }
    }
}

/// The value of a field: one that has a name, or the raw bits of one that
/// has none.
#[derive(Clone, Copy, Debug, PartialEq, Eq, Structural)]
pub enum Variant<U, T> {
    /// A value with a name
    Val(T),
    /// Raw bits without a name
    Res(U),
}

} // verus!
