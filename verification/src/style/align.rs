//! Alignment in the two directions.

use vstd::prelude::*;

verus! {

#[derive(Copy, Clone, PartialEq, Eq, Debug, Structural)]
pub enum AlignX {
    Left,
    Center,
    Right,
}

#[derive(Copy, Clone, PartialEq, Eq, Debug, Structural)]
pub enum AlignY {
    Top,
    Center,
    Bottom,
}

} // verus!
