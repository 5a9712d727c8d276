//! The type that stands for the DFLL as a clock source.

use vstd::prelude::*;
use crate::clock::gclk::{GclkSourceEnum, GclkSourceMarker};
use crate::typelevel::Sealed;

verus! {

/// The DFLL, as the source of a generator.
pub enum Dfll {
    /// The one value of the tag. It carries nothing.
    Tag,
}

impl Sealed for Dfll {

}

impl GclkSourceMarker for Dfll {
    open spec fn spec_gclk_src() -> GclkSourceEnum {
        GclkSourceEnum::DFLL
    }

    fn gclk_src() -> (src: GclkSourceEnum) {
        GclkSourceEnum::DFLL
    }
}

} // verus!
