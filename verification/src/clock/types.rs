//! A running clock source and the count of its dependents.

use vstd::prelude::*;
use crate::time::Hertz;
use crate::typelevel::Sealed;

verus! {

/// A clock that is running and says at which frequency.
pub trait Source: Sealed {
    /// The frequency of the clock, in hertz.
    spec fn spec_freq(&self) -> int;

    /// The frequency of the clock. It has to fit the type.
    fn freq(&self) -> (f: Hertz)
        requires
            self.spec_freq() <= u32::MAX,
        ensures
            f.0 == self.spec_freq(),
    ;
}

/// A clock source that is running, with the number of consumers that depend
/// on it. Only enabling a source makes one, and the count changes only where
/// a consumer attaches to the source or lets go of it; what stops a source
/// asks for a count of zero.
pub struct Enabled<T> {
    source: T,
    count: usize,
}

impl<T> Sealed for Enabled<T> {

}

impl<T> Enabled<T> {
    /// The source that is running.
    pub closed spec fn source(&self) -> T {
        self.source
    }

    /// The number of consumers that depend on the source.
    pub closed spec fn dependents(&self) -> nat {
        self.count as nat
    }

    /// `source`, running, with no dependent yet.
    pub(crate) fn new(source: T) -> (e: Enabled<T>)
        ensures
            e.source() == source,
            e.dependents() == 0,
    {
        Enabled { source, count: 0 }
    }

    /// The source that is running, to read.
    pub fn get(&self) -> (source: &T)
        ensures
            *source == self.source(),
    {
        &self.source
    }

    /// Takes the wrapper off the source. What does so answers for the
    /// dependents.
    pub(crate) fn into_source(self) -> (source: T)
        ensures
            source == self.source(),
    {
        self.source
    }

    /// The number of consumers that depend on the source.
    pub fn count(&self) -> (n: usize)
        ensures
            n == self.dependents(),
    {
        self.count
    }

    /// The same source with one dependent more.
    pub(crate) fn inc(self) -> (e: Enabled<T>)
        requires
            self.dependents() < usize::MAX,
        ensures
            e.source() == self.source(),
            e.dependents() == self.dependents() + 1,
    {
        Enabled { source: self.source, count: self.count + 1 }
    }

    /// The same source with one dependent less.
    pub(crate) fn dec(self) -> (e: Enabled<T>)
        requires
            self.dependents() > 0,
        ensures
            e.source() == self.source(),
            e.dependents() == self.dependents() - 1,
    {
        Enabled { source: self.source, count: self.count - 1 }
    }
}

} // verus!
