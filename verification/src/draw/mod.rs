//! Drawing frames and boxes: the control sequences and characters to send
//! to the terminal.

pub mod box_char;
pub mod cursor;
pub mod direction;
pub mod line;

use crate::{
    style::{
        align::AlignX,
        line::Line,
        reset_sequence,
        text::TextStyle,
        PrintableStyle,
    },
    text::{push_char, push_repeated, repeated},
    unit::{clamp_usize, count_diff, count_sum, Point, TermSize, Unit},
    widget::attr::Attr,
};
use box_char::BoxChar;
use cursor::go_sequence;
use vstd::prelude::*;
use vstd::utf8::encode_utf8;

verus! {

/// The sequence that clears the screen.
pub fn clear() -> (sequence: String)
    ensures
        sequence@ == "\x1b[2J"@,
{
    String::from_str("\x1b[2J")
}

/// The characters a box is drawn with.
#[derive(Clone, Copy, PartialEq, Eq, Debug, Structural)]
pub struct BoxGlyphs {
    pub horizontal: BoxChar,
    pub vertical: BoxChar,
    pub top_left: BoxChar,
    pub top_right: BoxChar,
    pub bottom_right: BoxChar,
    pub bottom_left: BoxChar,
}

/// The number of bytes that `text` takes as UTF-8.
pub open spec fn byte_len(text: Seq<char>) -> usize {
    encode_utf8(text).len() as usize
}

/// The characters of a box with lines of weight `line`; with `arc`, its
/// corners are rounded.
pub open spec fn glyphs_of(line: Line, arc: bool) -> BoxGlyphs {
    let square = match line {
        Line::Light => BoxGlyphs {
            horizontal: BoxChar::LightH,
            vertical: BoxChar::LightV,
            top_left: BoxChar::LightTL,
            top_right: BoxChar::LightTR,
            bottom_right: BoxChar::LightBR,
            bottom_left: BoxChar::LightBL,
        },
        Line::Heavy => BoxGlyphs {
            horizontal: BoxChar::HeavyH,
            vertical: BoxChar::HeavyV,
            top_left: BoxChar::HeavyTL,
            top_right: BoxChar::HeavyTR,
            bottom_right: BoxChar::HeavyBR,
            bottom_left: BoxChar::HeavyBL,
        },
        Line::Double => BoxGlyphs {
            horizontal: BoxChar::DoubleH,
            vertical: BoxChar::DoubleV,
            top_left: BoxChar::DoubleTL,
            top_right: BoxChar::DoubleTR,
            bottom_right: BoxChar::DoubleBR,
            bottom_left: BoxChar::DoubleBL,
        },
    };
    if arc {
        BoxGlyphs {
            top_left: BoxChar::ArcTL,
            top_right: BoxChar::ArcTR,
            bottom_right: BoxChar::ArcBR,
            bottom_left: BoxChar::ArcBL,
            ..square
        }
    } else {
        square
    }
}

/// One side of a box's outline: the corner it starts at, the cursor's move
/// `lead` to the next cell, and `count` times the `step` that draws one
/// cell of the edge.
pub open spec fn side_of(corner: char, lead: Seq<char>, step: Seq<char>, count: nat) -> Seq<char> {
    seq![corner] + lead + repeated(step, count)
}

/// The outline of a box of `width` by `height` cells, drawn clockwise from
/// its top left corner: the top edge, the right edge downwards, the bottom
/// edge leftwards, the left edge upwards. Between the corners an edge has
/// two cells less than the box (none where the box has fewer than two).
/// After each character of the right edge the cursor is moved by `down`.
pub open spec fn outline_of(glyphs: BoxGlyphs, width: usize, height: usize, down: Seq<char>) -> Seq<
    char,
> {
    let across = clamp_usize(width - 2) as nat;
    let along = clamp_usize(height - 2) as nat;
    side_of(glyphs.top_left.glyph(), Seq::empty(), seq![glyphs.horizontal.glyph()], across)
        + side_of(
        glyphs.top_right.glyph(),
        "\x1b[1D\x1b[1B"@,
        seq![glyphs.vertical.glyph()] + down,
        along,
    ) + side_of(
        glyphs.bottom_right.glyph(),
        "\x1b[2D"@,
        seq![glyphs.horizontal.glyph()] + "\x1b[2D"@,
        across,
    ) + side_of(
        glyphs.bottom_left.glyph(),
        "\x1b[1D\x1b[1A"@,
        seq![glyphs.vertical.glyph()] + "\x1b[1A\x1b[1D"@,
        along,
    )
}

/// How far from the left edge of a box of `width` cells a text of `len`
/// bytes starts that is set between two border characters with a space on
/// each side.
pub open spec fn title_offset(align: AlignX, width: usize, len: usize) -> usize {
    match align {
        AlignX::Left => 1,
        AlignX::Center => clamp_usize(width / 2 - clamp_usize(len + 4) / 2),
        AlignX::Right => clamp_usize(width - clamp_usize(len + 5)),
    }
}

/// How far from the left edge of a box of `width` cells a text of `len`
/// bytes starts that is set on the bottom border.
pub open spec fn binds_offset(align: AlignX, width: usize, len: usize) -> usize {
    match align {
        AlignX::Left => 1,
        AlignX::Center => clamp_usize(width / 2 - len / 2),
        AlignX::Right => clamp_usize(width - clamp_usize(len + 1)),
    }
}

/// What `draw_box` sends: nothing for a hidden border; else the border's
/// colors, the cursor's move to `anchor`, the outline of the box in the
/// widget's size, and the reset of the styles.
pub open spec fn box_sequence(anchor: Point, attr: Attr, line: Line, size: TermSize) -> Seq<char> {
    if attr.hide_border {
        Seq::empty()
    } else {
        attr.border_color.sequence() + attr.border_fill.sequence() + go_sequence(anchor, size)
            + outline_of(
            glyphs_of(line, attr.arc),
            attr.width.resolve(size),
            attr.height.resolve(size),
            "\x1b[1B\x1b[1D"@,
        ) + reset_sequence()
    }
}

/// What `draw_title` sends: nothing where the border or the title is
/// hidden; else the bold style and the border's colors, the cursor's move
/// to the title's place on the top border, the title between `┤` and `├`,
/// and the reset of the styles.
pub open spec fn title_sequence(anchor: Point, attr: Attr, size: TermSize) -> Seq<char> {
    if attr.hide_border || attr.hide_title {
        Seq::empty()
    } else {
        TextStyle::Bold.sequence() + attr.border_color.sequence() + attr.border_fill.sequence()
            + go_sequence(
            anchor.shifted(
                Unit::CoR(title_offset(attr.alignx, attr.width.resolve(size), byte_len(attr.title@))),
                Unit::CoR(0),
            ),
            size,
        ) + "┤ "@ + attr.title@ + " ├"@ + reset_sequence()
    }
}

/// What `draw_binds` sends: nothing where the border or the bindings are
/// hidden; else the bold style and the border's colors, the cursor's move
/// to the hint's place on the bottom border, the hint of the bindings, and
/// the reset of the styles.
pub open spec fn binds_sequence(anchor: Point, attr: Attr, size: TermSize) -> Seq<char> {
    if attr.hide_border || attr.hide_binds {
        Seq::empty()
    } else {
        TextStyle::Bold.sequence() + attr.border_color.sequence() + attr.border_fill.sequence()
            + go_sequence(
            anchor.shifted(
                Unit::CoR(
                    binds_offset(
                        attr.binds_align,
                        attr.width.resolve(size),
                        byte_len(crate::input::binds::hints(attr.binds@)),
                    ),
                ),
                Unit::CoR(clamp_usize(attr.height.resolve(size) - 1)),
            ),
            size,
        ) + crate::input::binds::hints(attr.binds@) + reset_sequence()
    }
}

/// The top left cell of the screen.
pub open spec fn screen_origin() -> Point {
    Point { x: Unit::CoR(1), y: Unit::CoR(1) }
}

/// What is sent for the title on the frame round the screen: nothing for a
/// hidden title; else the bold style, the cursor's move to the title's
/// place on the top border, and the title between `╣` and `╠`.
pub open spec fn frame_title_sequence(attr: Attr, size: TermSize) -> Seq<char> {
    if attr.hide_title {
        Seq::empty()
    } else {
        TextStyle::Bold.sequence() + go_sequence(
            screen_origin().shifted(
                Unit::CoR(title_offset(attr.title_align, size.cols, byte_len(attr.title@))),
                Unit::CoR(0),
            ),
            size,
        ) + "╣ "@ + attr.title@ + " ╠"@
    }
}

/// What is sent for the bindings on the frame round the screen: nothing
/// for hidden bindings; else the cursor's move to the hint's place on the
/// bottom border, and the hint.
pub open spec fn frame_binds_sequence(attr: Attr, size: TermSize) -> Seq<char> {
    if attr.hide_binds {
        Seq::empty()
    } else {
        go_sequence(
            screen_origin().shifted(
                Unit::CoR(
                    binds_offset(
                        attr.binds_align,
                        size.cols,
                        byte_len(crate::input::binds::hints(attr.binds@)),
                    ),
                ),
                Unit::CoR(clamp_usize(size.rows - 1)),
            ),
            size,
        ) + crate::input::binds::hints(attr.binds@)
    }
}

/// What `draw_frame` sends for the frame round the whole screen: nothing
/// for a hidden border; else the border's colors, the cursor's move to the
/// top left cell, the outline of a double-lined box of the terminal's
/// size, then the title and the hint of the bindings, and the reset of the
/// styles.
pub open spec fn frame_sequence(attr: Attr, size: TermSize) -> Seq<char> {
    if attr.hide_border {
        Seq::empty()
    } else {
        attr.border_color.sequence() + attr.border_fill.sequence() + go_sequence(
            screen_origin(),
            size,
        ) + outline_of(glyphs_of(Line::Double, false), size.cols, size.rows, "\x1b[1B"@)
            + frame_title_sequence(attr, size) + frame_binds_sequence(attr, size)
            + reset_sequence()
    }
}

fn glyphs(line: Line, arc: bool) -> (glyphs: BoxGlyphs)
    ensures
        glyphs == glyphs_of(line, arc),
{
    let (hc, vc, mut tl, mut tr, mut br, mut bl) = match line {
        Line::Light => (
            BoxChar::LightH,
            BoxChar::LightV,
            BoxChar::LightTL,
            BoxChar::LightTR,
            BoxChar::LightBR,
            BoxChar::LightBL,
        ),
        Line::Heavy => (
            BoxChar::HeavyH,
            BoxChar::HeavyV,
            BoxChar::HeavyTL,
            BoxChar::HeavyTR,
            BoxChar::HeavyBR,
            BoxChar::HeavyBL,
        ),
        Line::Double => (
            BoxChar::DoubleH,
            BoxChar::DoubleV,
            BoxChar::DoubleTL,
            BoxChar::DoubleTR,
            BoxChar::DoubleBR,
            BoxChar::DoubleBL,
        ),
    };

    if arc {
        tl = BoxChar::ArcTL;
        tr = BoxChar::ArcTR;
        br = BoxChar::ArcBR;
        bl = BoxChar::ArcBL;
    }
    BoxGlyphs {
        horizontal: hc,
        vertical: vc,
        top_left: tl,
        top_right: tr,
        bottom_right: br,
        bottom_left: bl,
    }
}

fn push_side(out: &mut String, corner: BoxChar, lead: &str, edge: BoxChar, after: &str, count: usize)
    ensures
        final(out)@ == old(out)@ + side_of(
            corner.glyph(),
            lead@,
            seq![edge.glyph()] + after@,
            count as nat,
        ),
{
    let mut step = edge.to_string();
    step.append(after);
    push_char(out, corner.to_char());
    out.append(lead);
    push_repeated(out, step.as_str(), count);
    assert(out@ =~= old(out)@ + side_of(
        corner.glyph(),
        lead@,
        seq![edge.glyph()] + after@,
        count as nat,
    ));
}

fn push_outline(out: &mut String, glyphs: BoxGlyphs, width: usize, height: usize, down: &str)
    ensures
        final(out)@ == old(out)@ + outline_of(glyphs, width, height, down@),
{
    let across = count_diff(width, 2);
    let along = count_diff(height, 2);
    let nothing = String::new();
    assert(seq![glyphs.horizontal.glyph()] + nothing@ =~= seq![glyphs.horizontal.glyph()]);
    push_side(out, glyphs.top_left, nothing.as_str(), glyphs.horizontal, nothing.as_str(), across);
    let ghost top = out@;
    push_side(out, glyphs.top_right, "\x1b[1D\x1b[1B", glyphs.vertical, down, along);
    let ghost right = out@;
    push_side(out, glyphs.bottom_right, "\x1b[2D", glyphs.horizontal, "\x1b[2D", across);
    let ghost bottom = out@;
    push_side(out, glyphs.bottom_left, "\x1b[1D\x1b[1A", glyphs.vertical, "\x1b[1A\x1b[1D", along);
    assert(out@ =~= old(out)@ + outline_of(glyphs, width, height, down@));
}

fn offset_of_title(align: AlignX, width: usize, len: usize) -> (offset: usize)
    ensures
        offset == title_offset(align, width, len),
{
    match align {
        AlignX::Left => 1,
        AlignX::Center => count_diff(width / 2, count_sum(len, 4) / 2),
        AlignX::Right => count_diff(width, count_sum(len, 5)),
    }
}

fn offset_of_binds(align: AlignX, width: usize, len: usize) -> (offset: usize)
    ensures
        offset == binds_offset(align, width, len),
{
    match align {
        AlignX::Left => 1,
        AlignX::Center => count_diff(width / 2, len / 2),
        AlignX::Right => count_diff(width, count_sum(len, 1)),
    }
}

fn frame_title(attr: &Attr, size: TermSize) -> (sequence: String)
    ensures
        sequence@ == frame_title_sequence(*attr, size),
{
    let mut out = String::new();
    if !attr.hide_title {
        let anchor = Point { x: Unit::CoR(1), y: Unit::CoR(1) };
        let x_offset = offset_of_title(attr.title_align, size.cols, attr.title.as_str().len());
        out.append(TextStyle::Bold.print().as_str());
        out.append(cursor::go(anchor.offset(Unit::CoR(x_offset), Unit::CoR(0)), size).as_str());
        out.append("╣ ");
        out.append(attr.title.as_str());
        out.append(" ╠");
        assert(out@ =~= frame_title_sequence(*attr, size));
    }
    out
}

fn frame_binds(attr: &Attr, size: TermSize) -> (sequence: String)
    ensures
        sequence@ == frame_binds_sequence(*attr, size),
{
    let mut out = String::new();
    if !attr.hide_binds {
        let anchor = Point { x: Unit::CoR(1), y: Unit::CoR(1) };
        let hint = attr.binds.to_string();
        let x_offset = offset_of_binds(attr.binds_align, size.cols, hint.as_str().len());
        out.append(
            cursor::go(
                anchor.offset(Unit::CoR(x_offset), Unit::CoR(count_diff(size.rows, 1))),
                size,
            ).as_str(),
        );
        out.append(hint.as_str());
        assert(out@ =~= frame_binds_sequence(*attr, size));
    }
    out
}

/// The sequence that draws the frame round the whole screen.
pub fn draw_frame(attr: &Attr, size: TermSize) -> (sequence: String)
    ensures
        sequence@ == frame_sequence(*attr, size),
{
    let mut out = String::new();
    if !attr.hide_border {
        let anchor = Point { x: Unit::CoR(1), y: Unit::CoR(1) };
        out.append(attr.border_color.print().as_str());
        out.append(attr.border_fill.print().as_str());
        out.append(cursor::go(anchor, size).as_str());
        push_outline(&mut out, glyphs(Line::Double, false), size.cols, size.rows, "\x1b[1B");
        out.append(frame_title(attr, size).as_str());
        out.append(frame_binds(attr, size).as_str());
        out.append(crate::style::reset().as_str());
        assert(out@ =~= frame_sequence(*attr, size));
    }
    out
}

/// The sequence that draws the border of a widget whose top left corner is
/// at `anchor`.
pub fn draw_box(anchor: Point, attr: &Attr, line: Line, size: TermSize) -> (sequence: String)
    ensures
        sequence@ == box_sequence(anchor, *attr, line, size),
{
    let mut out = String::new();
    if !attr.hide_border {
        let w = attr.width.calc(size);
        let h = attr.height.calc(size);

        out.append(attr.border_color.print().as_str());
        out.append(attr.border_fill.print().as_str());
        out.append(cursor::go(anchor, size).as_str());
        push_outline(&mut out, glyphs(line, attr.arc), w, h, "\x1b[1B\x1b[1D");
        out.append(crate::style::reset().as_str());
        assert(out@ =~= box_sequence(anchor, *attr, line, size));
    }
    out
}

/// The sequence that draws the title of a widget on its top border.
pub fn draw_title(anchor: Point, attr: &Attr, size: TermSize) -> (sequence: String)
    ensures
        sequence@ == title_sequence(anchor, *attr, size),
{
    let mut out = String::new();
    if !attr.hide_border && !attr.hide_title {
        let width = attr.width.calc(size);
        let x_offset = offset_of_title(attr.alignx, width, attr.title.as_str().len());

        out.append(TextStyle::Bold.print().as_str());
        out.append(attr.border_color.print().as_str());
        out.append(attr.border_fill.print().as_str());
        out.append(cursor::go(anchor.offset(Unit::CoR(x_offset), Unit::CoR(0)), size).as_str());
        out.append("┤ ");
        out.append(attr.title.as_str());
        out.append(" ├");
        out.append(crate::style::reset().as_str());
        assert(out@ =~= title_sequence(anchor, *attr, size));
    }
    out
}

/// The sequence that draws the hint of a widget's bindings on its bottom
/// border.
pub fn draw_binds(anchor: Point, attr: &Attr, size: TermSize) -> (sequence: String)
    ensures
        sequence@ == binds_sequence(anchor, *attr, size),
{
    let mut out = String::new();
    if !attr.hide_border && !attr.hide_binds {
        let width = attr.width.calc(size);
        let hint = attr.binds.to_string();
        let x_offset = offset_of_binds(attr.binds_align, width, hint.as_str().len());

        out.append(TextStyle::Bold.print().as_str());
        out.append(attr.border_color.print().as_str());
        out.append(attr.border_fill.print().as_str());
        out.append(
            cursor::go(
                anchor.offset(
                    Unit::CoR(x_offset),
                    Unit::CoR(count_diff(attr.height.calc(size), 1)),
                ),
                size,
            ).as_str(),
        );
        out.append(hint.as_str());
        out.append(crate::style::reset().as_str());
        assert(out@ =~= binds_sequence(anchor, *attr, size));
    }
    out
}

} // verus!
