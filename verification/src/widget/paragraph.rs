//! Text set in lines inside a widget's border.

use crate::draw::byte_len;
use crate::draw::cursor::{go, go_sequence};
use crate::style::align::AlignX;
use crate::unit::{clamp_usize, count_diff, Point, TermSize, Unit};
use vstd::prelude::*;
use vstd::string::StrSliceExecFns;

verus! {

/// The number of lines that a text of `len` characters takes in lines of
/// `width` characters, of which at most `limit` are kept. A width of 0
/// holds no line.
pub open spec fn line_count(len: nat, width: nat, limit: nat) -> nat {
    if width == 0 {
        0
    } else {
        let full = len / width + if len % width == 0 {
            0nat
        } else {
            1nat
        };
        if full < limit {
            full
        } else {
            limit
        }
    }
}

/// How far a line of `len` bytes is moved to the right in a widget of
/// `width` cells.
pub open spec fn line_shift(align: AlignX, width: usize, len: usize) -> usize {
    match align {
        AlignX::Left => 0,
        AlignX::Center => clamp_usize(clamp_usize(width / 2 - len / 2) - 1),
        AlignX::Right => clamp_usize(clamp_usize(width - len) - 2),
    }
}

/// Where the line `line` is set when the cursor for the lines is at `pos`:
/// a line that takes fewer bytes than the widget is wide inside its border
/// is moved to the right as the alignment asks.
pub open spec fn line_place(line: Seq<char>, width: usize, align: AlignX, pos: Point) -> Point {
    if byte_len(line) < clamp_usize(width - 2) {
        Point { x: pos.x.plus(Unit::CoR(line_shift(align, width, byte_len(line)))), y: pos.y }
    } else {
        pos
    }
}

/// What is sent for the lines of `text` from its character `from` on, at
/// most `lines` of them, in a widget of `width` cells: for each line the
/// cursor's move to its place and the line. Each line holds the next
/// characters of the text, two fewer than the widget is wide, and the last
/// one what is left. The cursor for the next line is one row below the
/// place of the line before, in the same column.
pub open spec fn lines_sequence(
    text: Seq<char>,
    from: nat,
    lines: nat,
    width: usize,
    align: AlignX,
    pos: Point,
    size: TermSize,
) -> Seq<char>
    decreases lines,
{
    let room = clamp_usize(width - 2) as nat;
    if lines == 0 || room == 0 || from >= text.len() {
        Seq::empty()
    } else {
        let to = if from + room < text.len() {
            from + room
        } else {
            text.len()
        };
        let line = text.subrange(from as int, to as int);
        let at = line_place(line, width, align, pos);
        go_sequence(at, size) + line + lines_sequence(
            text,
            to,
            (lines - 1) as nat,
            width,
            align,
            Point { x: at.x, y: at.y.plus(Unit::CoR(1)) },
            size,
        )
    }
}

/// The number of lines that `text` takes in a widget of `width` by `height`
/// cells: inside the border there are two characters less to a line, and
/// two lines less.
pub open spec fn lines_in(text: Seq<char>, width: usize, height: usize) -> nat {
    line_count(text.len(), clamp_usize(width - 2) as nat, clamp_usize(height - 2) as nat)
}

/// The number of lines that `text` takes in a widget of `width` by `height`
/// cells.
pub fn count_lines(text: &str, width: usize, height: usize) -> (count: usize)
    ensures
        count == lines_in(text@, width, height),
{
    let room = count_diff(width, 2);
    let limit = count_diff(height, 2);
    if room == 0 {
        0
    } else {
        let len = text.unicode_len();
        let whole = len / room;
        let full = if len % room == 0 {
            whole
        } else {
            assert(whole < len) by (nonlinear_arith)
                requires
                    room > 0,
                    len % room != 0,
                    whole == len / room,
            ;
            whole + 1
        };
        if full < limit {
            full
        } else {
            limit
        }
    }
}

fn shift_of(align: AlignX, width: usize, len: usize) -> (shift: usize)
    ensures
        shift == line_shift(align, width, len),
{
    match align {
        AlignX::Left => 0,
        AlignX::Center => count_diff(count_diff(width / 2, len / 2), 1),
        AlignX::Right => count_diff(count_diff(width, len), 2),
    }
}

/// Appends to `out` what is sent for the lines of `text`, at most `lines`
/// of them, starting with the cursor at `pos`.
pub fn push_lines(
    out: &mut String,
    text: &str,
    lines: usize,
    width: usize,
    align: AlignX,
    pos: Point,
    size: TermSize,
)
    ensures
        final(out)@ == old(out)@ + lines_sequence(text@, 0, lines as nat, width, align, pos, size),
{
    let room = count_diff(width, 2);
    let len = text.unicode_len();
    let mut from: usize = 0;
    let mut left: usize = lines;
    let mut pos = pos;
    let ghost whole = lines_sequence(text@, 0, lines as nat, width, align, pos, size);
    assert(old(out)@ + whole =~= old(out)@ + whole);
    while left > 0 && room > 0 && from < len
        invariant
            room == clamp_usize(width - 2),
            len == text@.len(),
            from <= len,
            old(out)@ + whole == out@ + lines_sequence(
                text@,
                from as nat,
                left as nat,
                width,
                align,
                pos,
                size,
            ),
        decreases left,
    {
        let to: usize = if len - from > room {
            from + room
        } else {
            len
        };
        let line = text.substring_char(from, to);
        let at = if line.len() < room {
            Point { x: pos.x + Unit::CoR(shift_of(align, width, line.len())), y: pos.y }
        } else {
            pos
        };
        let ghost before = out@;
        out.append(go(at, size).as_str());
        out.append(line);
        let next = Point { x: at.x, y: at.y + Unit::CoR(1) };
        proof {
            let rest = lines_sequence(text@, to as nat, (left - 1) as nat, width, align, next, size);
            assert(out@ + rest =~= before + (go_sequence(at, size) + line@ + rest));
        }
        pos = next;
        from = to;
        left = left - 1;
    }
    assert(out@ + Seq::<char>::empty() =~= out@);
}

} // verus!
