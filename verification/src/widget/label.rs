//! The label: a widget that shows a text.

use super::attr::Attr;
use super::paragraph::{count_lines, lines_in, lines_sequence, push_lines};
use crate::{
    style::{align::AlignY, PrintableStyle},
    unit::{clamp_usize, count_diff, Point, TermSize, Unit},
};
use vstd::prelude::*;

verus! {

/// A widget that shows a text.
#[derive(PartialEq, Debug)]
pub struct Label {
    pub attr: Attr,
    pub text: String,
}

/// The row, counted from a label's top border, of the first of its `lines`
/// lines of text.
pub open spec fn first_row(align: AlignY, height: usize, lines: usize) -> usize {
    match align {
        AlignY::Top => 1,
        AlignY::Center => clamp_usize(height / 2 - lines / 2),
        AlignY::Bottom => clamp_usize(clamp_usize(height - lines) - 1),
    }
}

/// What a label with the attributes `attr` and the text `text` sends when
/// it is drawn with its top left corner at `anchor`: the style and the color
/// of its text, then the lines of the text that fit inside its border,
/// the first one a column to the right of `anchor` in the row that the
/// vertical alignment gives.
pub open spec fn label_sequence(attr: Attr, text: Seq<char>, anchor: Point, size: TermSize) -> Seq<
    char,
> {
    let width = attr.width.resolve(size);
    let height = attr.height.resolve(size);
    let lines = lines_in(text, width, height);
    attr.text_style.sequence() + attr.text_color.sequence() + lines_sequence(
        text,
        0,
        lines,
        width,
        attr.alignx,
        anchor.shifted(Unit::CoR(1), Unit::CoR(first_row(attr.aligny, height, lines as usize))),
        size,
    )
}

impl Label {
    pub fn new(text: &str, attr: Option<Attr>) -> (label: Box<Label>)
        ensures
            label.text@ == text@,
            match attr {
                Some(a) => label.attr == a,
                None => label.attr.is_default(),
            },
    {
        Box::new(
            Label {
                attr: match attr {
                    Some(a) => a,
                    None => Attr::new(),
                },
                text: String::from_str(text),
            },
        )
    }

    /// The sequence that draws the label's text, with the label's top left
    /// corner at `anchor`.
    pub fn render(&self, anchor: Point, size: TermSize) -> (sequence: String)
        ensures
            sequence@ == label_sequence(self.attr, self.text@, anchor, size),
    {
        let width = self.attr.width.calc(size);
        let height = self.attr.height.calc(size);
        let lines = count_lines(self.text.as_str(), width, height);
        let row = match self.attr.aligny {
            AlignY::Top => 1,
            AlignY::Center => count_diff(height / 2, lines / 2),
            AlignY::Bottom => count_diff(count_diff(height, lines), 1),
        };
        let mut out = self.attr.text_style.print();
        out.append(self.attr.text_color.print().as_str());
        push_lines(
            &mut out,
            self.text.as_str(),
            lines,
            width,
            self.attr.alignx,
            anchor.offset(Unit::CoR(1), Unit::CoR(row)),
            size,
        );
        out
    }
}

impl Clone for Label {
    fn clone(&self) -> (copy: Label)
        ensures
            copy.attr.same(self.attr),
            copy.text@ == self.text@,
    {
        Label { attr: self.attr.clone(), text: self.text.clone() }
    }
}

} // verus!
