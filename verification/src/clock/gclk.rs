//! Clock generators.

use vstd::prelude::*;
use core::marker::PhantomData;
use crate::typelevel::Sealed;
use super::pclk::PclkSourceMarker;
use super::types::Enabled;

verus! {

/// The clock sources that a generator can take.
#[derive(Clone, Copy, Debug, PartialEq, Eq, Structural)]
pub enum GclkSourceEnum {
    XOSC0,
    XOSC1,
    GCLKIN,
    GCLKGEN1,
    OSCULP32K,
    XOSC32K,
    DFLL,
    DPLL0,
    DPLL1,
}

/// A type that stands for a clock source of a generator.
pub trait GclkSourceMarker: Sealed {
    /// The source that the type stands for.
    spec fn spec_gclk_src() -> GclkSourceEnum;

    /// The source that the type stands for.
    fn gclk_src() -> (src: GclkSourceEnum)
        ensures
            src == Self::spec_gclk_src(),
    ;
}

/// A clock source that can feed a generator.
pub trait GclkSource: Sealed {
    /// The type that stands for the source.
    type Type: GclkSourceMarker;
}

/// A type that stands for a generator.
pub trait GenNum: Sealed {

}

/// Generator 0, which clocks the processor.
pub enum Gen0 {
    /// The one value of the tag. It carries nothing.
    Tag,
}

impl Sealed for Gen0 {

}

impl GenNum for Gen0 {

}

/// Generator 1, whose output can feed other generators and peripheral
/// channels.
pub enum Gen1 {
    /// The one value of the tag. It carries nothing.
    Tag,
}

impl Sealed for Gen1 {

}

impl GenNum for Gen1 {

}

impl PclkSourceMarker for Gen1 {

}

/// Generator 0, fed by the source that `T` stands for. Who holds it holds
/// one dependent of that source.
pub struct Gclk0<T: GclkSourceMarker> {
    _source: PhantomData<T>,
}

impl<T: GclkSourceMarker> Gclk0<T> {
    /// Feeds generator 0 from `source`: the source gets one dependent more,
    /// and the generator's handle stands for that dependent.
    pub fn new<S: GclkSource<Type = T>>(source: Enabled<S>) -> (r: (Gclk0<T>, Enabled<S>))
        requires
            source.dependents() < usize::MAX,
        ensures
            r.1.source() == source.source(),
            r.1.dependents() == source.dependents() + 1,
    {
        (Gclk0 { _source: PhantomData }, source.inc())
    }

    /// Takes generator 0 off `source`: the source has one dependent less.
    pub fn free<S: GclkSource<Type = T>>(self, source: Enabled<S>) -> (r: Enabled<S>)
        requires
            source.dependents() > 0,
        ensures
            r.source() == source.source(),
            r.dependents() == source.dependents() - 1,
    {
        source.dec()
    }

    /// The source that feeds the generator.
    pub fn source(&self) -> (src: GclkSourceEnum)
        ensures
            src == T::spec_gclk_src(),
    {
        T::gclk_src()
    }
}

} // verus!
