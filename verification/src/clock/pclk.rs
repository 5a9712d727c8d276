//! Peripheral channel clocks.

use vstd::prelude::*;
use core::marker::PhantomData;
use crate::time::Hertz;
use crate::typelevel::Sealed;

verus! {

/// A type that stands for what feeds a peripheral channel.
pub trait PclkSourceMarker: Sealed {

}

/// A type that stands for a peripheral channel.
pub trait PclkType: Sealed {

}

/// The peripheral channel that carries the reference clock of the DFLL.
pub enum Dfll48 {
    /// The one value of the tag. It carries nothing.
    Tag,
}

impl Sealed for Dfll48 {

}

impl PclkType for Dfll48 {

}

/// The clock of peripheral channel `P`, fed by `T`.
pub struct Pclk<P: PclkType, T: PclkSourceMarker> {
    freq: Hertz,
    _channel: PhantomData<P>,
    _source: PhantomData<T>,
}

impl<P: PclkType, T: PclkSourceMarker> Pclk<P, T> {
    /// The frequency of the clock.
    pub closed spec fn spec_freq(&self) -> Hertz {
        self.freq
    }

    /// The clock of the channel, running at `freq`.
    pub fn new(freq: Hertz) -> (pclk: Pclk<P, T>)
        ensures
            pclk.spec_freq() == freq,
    {
        Pclk { freq, _channel: PhantomData, _source: PhantomData }
    }

    /// The frequency of the clock.
    #[verifier::when_used_as_spec(spec_freq)]
    pub fn freq(&self) -> (f: Hertz)
        ensures
            f == self.spec_freq(),
    {
        self.freq
    }
}

} // verus!
