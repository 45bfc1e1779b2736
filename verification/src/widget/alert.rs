//! The alert: a message drawn over the screen.

use super::attr::Attr;
use super::paragraph::{count_lines, lines_in, lines_sequence, push_lines};
use crate::{
    style::{align::AlignX, reset_sequence, PrintableStyle},
    unit::{clamp_usize, count_diff, Point, TermSize, Unit},
};
use vstd::prelude::*;

verus! {

#[derive(Copy, Clone, PartialEq, Eq, Debug, Structural)]
pub enum AlertType {
    Info,
    Warning,
    Error,
}

/// A message shown over the screen.
#[derive(PartialEq, Debug)]
pub struct Alert {
    pub attr: Attr,
    pub text: String,
    pub alert_type: AlertType,
}

/// Where an alert is drawn: 35 percent of the terminal's width from the
/// left and 35 percent of its height from the top.
pub open spec fn alert_anchor() -> Point {
    Point { x: Unit::PctH(35), y: Unit::PctV(35) }
}

/// What an alert sends when it is drawn: the color and the style of its
/// text, then the lines of the text that fit inside its border, centered
/// in both directions in the alert's box, and the reset of the styles.
pub open spec fn alert_sequence(attr: Attr, text: Seq<char>, size: TermSize) -> Seq<char> {
    let width = attr.width.resolve(size);
    let height = attr.height.resolve(size);
    let lines = lines_in(text, width, height);
    attr.text_color.sequence() + attr.text_style.sequence() + lines_sequence(
        text,
        0,
        lines,
        width,
        AlignX::Center,
        alert_anchor().shifted(Unit::CoR(1), Unit::CoR(clamp_usize(height / 2 - lines / 2))),
        size,
    ) + reset_sequence()
}

impl Alert {
    pub fn new(text: String, alert_type: AlertType) -> (alert: Alert)
        ensures
            alert.text == text,
            alert.alert_type == alert_type,
            alert.attr.is_default(),
    {
        Alert { attr: Attr::new(), text, alert_type }
    }

    /// The sequence that draws the alert. It is drawn at its own place on
    /// the screen, whatever `anchor` is.
    pub fn render(&self, anchor: Point, size: TermSize) -> (sequence: String)
        ensures
            sequence@ == alert_sequence(self.attr, self.text@, size),
    {
        let width = self.attr.width.calc(size);
        let height = self.attr.height.calc(size);
        let lines = count_lines(self.text.as_str(), width, height);
        let anchor = Point { x: Unit::PctH(35), y: Unit::PctV(35) };
        let mut out = self.attr.text_color.print();
        out.append(self.attr.text_style.print().as_str());
        push_lines(
            &mut out,
            self.text.as_str(),
            lines,
            width,
            AlignX::Center,
            anchor.offset(Unit::CoR(1), Unit::CoR(count_diff(height / 2, lines / 2))),
            size,
        );
        out.append(crate::style::reset().as_str());
        out
    }
}

} // verus!
