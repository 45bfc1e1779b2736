//! The control sequences that move and style the terminal's cursor.

use crate::text::{decimal, push_decimal};
use crate::unit::{Point, TermSize};
use vstd::prelude::*;

verus! {

pub fn show() -> (sequence: String)
    ensures
        sequence@ == "\x1b[?25h"@,
{
    String::from_str("\x1b[?25h")
}

pub fn hide_cursor() -> (sequence: String)
    ensures
        sequence@ == "\x1b[?25l"@,
{
    String::from_str("\x1b[?25l")
}

pub fn home() -> (sequence: String)
    ensures
        sequence@ == "\x1b[H"@,
{
    String::from_str("\x1b[H")
}

/// The sequence that puts the cursor at `p` on a terminal of size `size`:
/// the row first, then the column.
pub open spec fn go_sequence(p: Point, size: TermSize) -> Seq<char> {
    "\x1b["@ + decimal(p.y.resolve(size) as nat) + ";"@ + decimal(p.x.resolve(size) as nat)
        + "H"@
}

pub fn go(p: Point, size: TermSize) -> (sequence: String)
    ensures
        sequence@ == go_sequence(p, size),
{
    let mut sequence = String::from_str("\x1b[");
    push_decimal(&mut sequence, p.y.calc(size));
    sequence.append(";");
    push_decimal(&mut sequence, p.x.calc(size));
    sequence.append("H");
    sequence
}

pub fn up() -> (sequence: String)
    ensures
        sequence@ == "\x1b[1A"@,
{
    String::from_str("\x1b[1A")
}

pub fn down() -> (sequence: String)
    ensures
        sequence@ == "\x1b[1B"@,
{
    String::from_str("\x1b[1B")
}

pub fn right() -> (sequence: String)
    ensures
        sequence@ == "\x1b[1C"@,
{
    String::from_str("\x1b[1C")
}

pub fn left() -> (sequence: String)
    ensures
        sequence@ == "\x1b[1D"@,
{
    String::from_str("\x1b[1D")
}

#[derive(Clone, Copy, PartialEq, Eq, Debug, Structural)]
pub enum CursorShape {
    /// The terminal's own shape.
    Unset,
    BlinkBlock,
    SolidBlock,
    BlinkingUnderline,
    SolidUnderline,
    BlinkingBar,
    SolidBar,
}

impl CursorShape {
    /// The number that stands for the shape in the control sequence.
    pub open spec fn number(self) -> nat {
        match self {
            CursorShape::Unset => 0,
            CursorShape::BlinkBlock => 1,
            CursorShape::SolidBlock => 2,
            CursorShape::BlinkingUnderline => 3,
            CursorShape::SolidUnderline => 4,
            CursorShape::BlinkingBar => 5,
            CursorShape::SolidBar => 6,
        }
    }

    fn code(self) -> (code: usize)
        ensures
            code == self.number(),
    {
        match self {
            CursorShape::Unset => 0,
            CursorShape::BlinkBlock => 1,
            CursorShape::SolidBlock => 2,
            CursorShape::BlinkingUnderline => 3,
            CursorShape::SolidUnderline => 4,
            CursorShape::BlinkingBar => 5,
            CursorShape::SolidBar => 6,
        }
    }
}

pub fn set_shape(s: CursorShape) -> (sequence: String)
    ensures
        sequence@ == "\x1b["@ + decimal(s.number()) + " q"@,
{
    let mut sequence = String::from_str("\x1b[");
    push_decimal(&mut sequence, s.code());
    sequence.append(" q");
    sequence
}

} // verus!
