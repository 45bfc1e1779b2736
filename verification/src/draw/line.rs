//! Runs of one character in one of the four directions.

use super::direction::Direction;
use crate::{
    style::{color::Color, reset_sequence, PrintableStyle},
    text::{push_char, push_repeated, repeated},
};
use vstd::prelude::*;

verus! {

/// The cursor's move that follows each character of a run in the direction
/// `direction`, so that the next character comes to lie beside it in that
/// direction.
pub open spec fn step_after(direction: Direction) -> Seq<char> {
    match direction {
        Direction::Up => "\x1b[1A\x1b[1D"@,
        Direction::Down => "\x1b[1B\x1b[1D"@,
        Direction::Right => Seq::empty(),
        Direction::Left => "\x1b[2D"@,
    }
}

/// What `draw_char` sends: the color, `length` times the character with
/// the cursor's move that follows it, and the reset of the styles.
pub open spec fn run_sequence(c: char, color: Color, direction: Direction, length: usize) -> Seq<
    char,
> {
    color.sequence() + repeated(seq![c] + step_after(direction), length as nat)
        + reset_sequence()
}

/// The sequence that draws `length` times the character `c` from the
/// cursor on in the direction `direction`.
pub fn draw_char(c: char, color: &Color, direction: Direction, length: usize) -> (sequence: String)
    ensures
        sequence@ == run_sequence(c, *color, direction, length),
{
    let mut unit = String::new();
    push_char(&mut unit, c);
    match direction {
        Direction::Up => unit.append("\x1b[1A\x1b[1D"),
        Direction::Down => unit.append("\x1b[1B\x1b[1D"),
        Direction::Right => {},
        Direction::Left => unit.append("\x1b[2D"),
    }
    assert(unit@ =~= seq![c] + step_after(direction));
    let mut out = color.print();
    push_repeated(&mut out, unit.as_str(), length);
    out.append(crate::style::reset().as_str());
    out
}

} // verus!
