//! The frame: the panel that fills the screen.

use super::layout::{content_size, inner_size};
use super::render::{all_drawn, children_sequence, render_widgets};
use crate::{
    draw::{draw_frame, frame_sequence},
    style::align::{AlignX, AlignY},
    unit::{clamp_usize, count_diff, Point, TermSize, Unit},
    widget::{all_alike, attr::Attr, WidgetList},
};
use vstd::prelude::*;

verus! {

/// The panel that fills the whole screen.
#[derive(PartialEq, Debug)]
pub struct Frame {
    pub attr: Attr,
    pub children: WidgetList,
}

/// Where a frame with the attributes `attr` and a content of `inner`
/// (width, height) starts to draw its children: at the second column and
/// row where it aligns them at the near side; in the middle, as far from
/// the near side as half the terminal's extent is more than half the
/// content's; at the far side, as far as the terminal's extent is more than
/// the content's.
pub open spec fn frame_anchor(attr: Attr, inner: (usize, usize), size: TermSize) -> Point {
    Point {
        x: Unit::CoR(
            match attr.alignx {
                AlignX::Left => 2,
                AlignX::Center => clamp_usize(size.cols / 2 - inner.0 / 2),
                AlignX::Right => clamp_usize(size.cols - inner.0),
            },
        ),
        y: Unit::CoR(
            match attr.aligny {
                AlignY::Top => 2,
                AlignY::Center => clamp_usize(size.rows / 2 - inner.1 / 2),
                AlignY::Bottom => clamp_usize(size.rows - inner.1),
            },
        ),
    }
}

impl Frame {
    pub fn new(attr: Option<Attr>) -> (frame: Frame)
        ensures
            frame.children@.len() == 0,
            match attr {
                Some(a) => frame.attr == a,
                None => frame.attr.is_default(),
            },
    {
        Frame {
            attr: match attr {
                Some(a) => a,
                None => Attr::new(),
            },
            children: WidgetList(Vec::new()),
        }
    }

    /// The sequence that draws the frame and what it holds: the border
    /// round the screen, then the children from the frame's anchor on.
    pub fn render(&mut self, size: TermSize) -> (sequence: String)
        ensures
            sequence@ == frame_sequence(old(self).attr, size) + children_sequence(
                old(self).attr,
                old(self).children@,
                frame_anchor(
                    old(self).attr,
                    inner_size(old(self).attr.orientation, old(self).children@, size),
                    size,
                ),
                size,
            ),
            final(self).attr == old(self).attr,
            all_drawn(old(self).children@, final(self).children@, old(self).attr),
    {
        let mut out = draw_frame(&self.attr, size);
        let inner = content_size(self.attr.orientation, &self.children.0, size);
        let anchor = Point {
            x: match self.attr.alignx {
                AlignX::Left => Unit::CoR(2),
                AlignX::Center => Unit::CoR(count_diff(size.cols / 2, inner.0 / 2)),
                AlignX::Right => Unit::CoR(size.cols) - Unit::CoR(inner.0),
            },
            y: match self.attr.aligny {
                AlignY::Top => Unit::CoR(2),
                AlignY::Center => Unit::CoR(count_diff(size.rows / 2, inner.1 / 2)),
                AlignY::Bottom => Unit::CoR(size.rows) - Unit::CoR(inner.1),
            },
        };
        let children = render_widgets(&self.attr, &mut self.children.0, anchor, size);
        out.append(children.as_str());
        out
    }
}

impl Clone for Frame {
    fn clone(&self) -> (copy: Frame)
        ensures
            copy.attr.same(self.attr),
            all_alike(copy.children@, self.children@),
    {
        Frame { attr: self.attr.clone(), children: self.children.clone() }
    }
}

} // verus!
