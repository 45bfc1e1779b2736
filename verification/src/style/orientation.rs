use vstd::prelude::*;

verus! {

/// The axis along which a panel stacks its children.
#[derive(Copy, Clone, PartialEq, Eq, Debug, Structural)]
pub enum Orientation {
    Horizontal,
    Vertical,
}

} // verus!
