//! Encoding as a bit mask.

use vstd::prelude::*;

verus! {

/// A value with an encoding as a bit mask.
pub trait Mask {
    /// What a mask decodes to.
    type Output;

    /// The mask that encodes `self`.
    spec fn mask_spec(&self) -> int;

    /// Whether `out` is what `mask` decodes to.
    spec fn unmasks_to(mask: usize, out: Self::Output) -> bool;

    fn mask(&self) -> (mask: usize)
        ensures
            mask == self.mask_spec(),
    ;

    fn unmask(mask: usize) -> (out: Self::Output)
        ensures
            Self::unmasks_to(mask, out),
    ;
}

} // verus!
