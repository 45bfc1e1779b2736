//! The progress bar.

use super::attr::Attr;
use crate::{
    draw::cursor::{go, go_sequence},
    style::{color::ColorBG, PrintableStyle},
    text::{decimal, push_decimal, push_repeated, repeated},
    unit::{clamp_usize, count_diff, percent_of, scaled, Point, TermSize, Unit},
};
use vstd::prelude::*;

verus! {

/// A bar that is filled by as many hundredths as its progress says.
#[derive(PartialEq, Debug)]
pub struct ProgressBar {
    pub attr: Attr,
    /// The progress in hundredths, at most 100.
    pub progress: usize,
    pub bar_color: ColorBG,
}

/// `n`, held to at most 100.
pub open spec fn capped(n: int) -> usize {
    if n > 100 {
        100
    } else if n < 0 {
        0
    } else {
        n as usize
    }
}

/// What a progress bar sends when it is drawn with its top left corner at
/// `anchor`: the bar's color and, from the cell inside the top left corner
/// on, as many spaces as its progress is of the width inside the border;
/// then the color and style of its text, and below 53 hundredths its
/// background, and the progress with a percent sign from the middle of the
/// bar on.
pub open spec fn bar_sequence(bar: ProgressBar, anchor: Point, size: TermSize) -> Seq<char> {
    let width = bar.attr.width.resolve(size);
    let start = anchor.shifted(Unit::CoR(1), Unit::CoR(1));
    let filled = clamp_usize(percent_of(bar.progress as int, clamp_usize(width - 2) as int));
    bar.bar_color.sequence() + go_sequence(start, size) + repeated(" "@, filled as nat)
        + bar.attr.text_color.sequence() + bar.attr.text_style.sequence() + (if bar.progress < 53 {
        bar.attr.fill.sequence()
    } else {
        Seq::empty()
    }) + go_sequence(Point { x: start.x.plus(Unit::CoR(width / 2)), y: start.y }, size) + decimal(
        bar.progress as nat,
    ) + "%"@
}

impl ProgressBar {
    /// The progress is at most 100 hundredths.
    pub open spec fn wf(&self) -> bool {
        self.progress <= 100
    }

    pub fn new(bar_color: ColorBG, attr: Option<Attr>) -> (bar: Box<ProgressBar>)
        ensures
            bar.wf(),
            bar.progress == 0,
            bar.bar_color == bar_color,
            bar.attr.height == Unit::CoR(3),
            match attr {
                Some(a) => bar.attr == (Attr { height: Unit::CoR(3), ..a }),
                None => (Attr { height: Unit::CoR(0), ..bar.attr }).is_default(),
            },
    {
        let mut attr = match attr {
            Some(a) => a,
            None => Attr::new(),
        };
        attr.height = Unit::CoR(3);
        Box::new(ProgressBar { attr, bar_color, progress: 0 })
    }

    /// Sets the progress to `value` hundredths, and to 100 where `value` is
    /// more.
    pub fn progress(&mut self, value: usize)
        ensures
            *final(self) == (ProgressBar { progress: capped(value as int), ..*old(self) }),
            final(self).wf(),
    {
        if value > 100 {
            self.progress = 100;
        } else {
            self.progress = value;
        }
    }

    /// Adds one hundredth, up to 100.
    pub fn increment(&mut self)
        ensures
            *final(self) == (ProgressBar {
                progress: capped(old(self).progress + 1),
                ..*old(self)
            }),
            final(self).wf(),
    {
        if self.progress >= 100 {
            self.progress = 100;
        } else {
            self.progress = self.progress + 1;
        }
    }

    /// Takes one hundredth off, down to 0.
    pub fn decrement(&mut self)
        ensures
            *final(self) == (ProgressBar {
                progress: capped(old(self).progress - 1),
                ..*old(self)
            }),
            final(self).wf(),
    {
        if self.progress > 100 {
            self.progress = 100;
        } else if self.progress > 0 {
            self.progress = self.progress - 1;
        }
    }

    /// Adds `value` hundredths, up to 100.
    pub fn inc_progress(&mut self, value: usize)
        ensures
            *final(self) == (ProgressBar {
                progress: capped(old(self).progress + value),
                ..*old(self)
            }),
            final(self).wf(),
    {
        if self.progress >= 100 || value >= 100 - self.progress {
            self.progress = 100;
        } else {
            self.progress = self.progress + value;
        }
    }

    /// Takes `value` hundredths off, down to 0.
    pub fn dec_progress(&mut self, value: usize)
        ensures
            *final(self) == (ProgressBar {
                progress: clamp_usize(old(self).progress - value),
                ..*old(self)
            }),
            old(self).wf() ==> final(self).wf(),
    {
        if value > self.progress {
            self.progress = 0;
        } else {
            self.progress = self.progress - value;
        }
    }

    pub fn reset(&mut self)
        ensures
            *final(self) == (ProgressBar { progress: 0, ..*old(self) }),
            final(self).wf(),
    {
        self.progress = 0;
    }

    pub fn bar_color(&mut self, value: ColorBG)
        ensures
            *final(self) == (ProgressBar { bar_color: value, ..*old(self) }),
            old(self).wf() ==> final(self).wf(),
    {
        self.bar_color = value;
    }

    /// The sequence that draws the bar, with its top left corner at
    /// `anchor`.
    pub fn render(&self, anchor: Point, size: TermSize) -> (sequence: String)
        ensures
            sequence@ == bar_sequence(*self, anchor, size),
    {
        let width = self.attr.width.calc(size);
        let mut out = self.bar_color.print();

        let start = anchor.offset(Unit::CoR(1), Unit::CoR(1));
        out.append(go(start, size).as_str());
        push_repeated(&mut out, " ", scaled(self.progress, count_diff(width, 2)));

        out.append(self.attr.text_color.print().as_str());
        out.append(self.attr.text_style.print().as_str());

        if self.progress < 53 {
            out.append(self.attr.fill.print().as_str());
        }
        let middle = Point { x: start.x + Unit::CoR(width / 2), y: start.y };
        out.append(go(middle, size).as_str());
        push_decimal(&mut out, self.progress);
        out.append("%");
        assert(out@ =~= bar_sequence(*self, anchor, size));
        out
    }
}

impl Clone for ProgressBar {
    fn clone(&self) -> (copy: ProgressBar)
        ensures
            copy.attr.same(self.attr),
            copy.progress == self.progress,
            copy.bar_color == self.bar_color,
    {
        ProgressBar { attr: self.attr.clone(), progress: self.progress, bar_color: self.bar_color }
    }
}

} // verus!
