//! The four directions.

use vstd::prelude::*;

verus! {

/// The direction in which a run of characters is drawn.
#[derive(Clone, Copy, PartialEq, Eq, Debug, Structural)]
pub enum Direction {
    Up,
    Down,
    Right,
    Left,
}

} // verus!
