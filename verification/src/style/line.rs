use vstd::prelude::*;

verus! {

/// The weight of the lines a box is drawn with.
#[derive(Copy, Clone, PartialEq, Eq, Debug, Structural)]
pub enum Line {
    Light,
    Heavy,
    Double,
}

} // verus!
