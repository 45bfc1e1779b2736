//! The layout engine: the size of a panel's content, the fitting of a panel
//! to its content, and the placing and drawing of its children.

pub mod frame;
pub mod layout;
pub mod render;
pub mod search;

use crate::{
    unit::{Point, TermSize, Unit},
    widget::{attr::Attr, container::Container, Widget},
};
use frame::Frame;
use layout::{content_size, fit_panel, flexed, inner_size};
use render::{all_drawn, children_sequence, render_widgets};
use search::{find_widget, found, remove_widget, remove_widgets, removed, removed_each, replaced};
use vstd::prelude::*;

verus! {

/// A widget that holds an ordered list of children and lays them out.
pub trait Panel: Sized {
    /// The panel's attributes.
    spec fn own_attr(&self) -> Attr;

    /// The panel's children, in their order.
    spec fn own_children(&self) -> Seq<Widget>;

    fn attr(&self) -> (attr: &Attr)
        ensures
            *attr == self.own_attr(),
    ;

    fn children(&self) -> (children: &Vec<Widget>)
        ensures
            children@ == self.own_children(),
    ;

    fn split(&self) -> (parts: (&Attr, &Vec<Widget>))
        ensures
            *parts.0 == self.own_attr(),
            parts.1@ == self.own_children(),
    ;

    fn split_mut(&mut self) -> (parts: (&mut Attr, &mut Vec<Widget>))
        ensures
            *parts.0 == old(self).own_attr(),
            parts.1@ == old(self).own_children(),
            final(self).own_attr() == *final(parts.0),
            final(self).own_children() == final(parts.1)@,
    ;

    /// The first widget with the tag `tag` among the panel's children and
    /// what they hold: the search looks at each child and then, before it
    /// goes on to the next, at what that child holds.
    fn get_child(&mut self, tag: &str) -> (widget: Option<&mut Widget>)
        ensures
            final(self).own_attr() == old(self).own_attr(),
            match widget {
                Some(w) => found(old(self).own_children(), tag@) == Some(*w) && replaced(
                    old(self).own_children(),
                    final(self).own_children(),
                    tag@,
                    *final(w),
                ),
                None => found(old(self).own_children(), tag@) is None && final(self).own_children() == old(self).own_children(),
            },
    ;

    /// The child at `index`, where there is one.
    fn child_at(&mut self, index: usize) -> (child: Option<&mut Widget>)
        ensures
            final(self).own_attr() == old(self).own_attr(),
            match child {
                Some(w) => index < old(self).own_children().len() && *w == old(self).own_children()[index as int] && final(self).own_children() == old(self).own_children().update(index as int, *final(w)),
                None => index >= old(self).own_children().len() && final(self).own_children()
                    == old(self).own_children(),
            },
    ;

    /// Adds `widget` as the last child and fits the panel to its children.
    fn add(&mut self, widget: Widget, size: TermSize)
        ensures
            final(self).own_children() == old(self).own_children().push(widget),
            final(self).own_attr() == flexed(
                old(self).own_attr(),
                inner_size(old(self).own_attr().orientation, final(self).own_children(), size),
                size,
            ),
    ;

    /// Adds `widgets` behind the children, in their order, and fits the
    /// panel to its children.
    fn addm(&mut self, widgets: Vec<Widget>, size: TermSize)
        ensures
            final(self).own_children() == old(self).own_children() + widgets@,
            final(self).own_attr() == flexed(
                old(self).own_attr(),
                inner_size(old(self).own_attr().orientation, final(self).own_children(), size),
                size,
            ),
    ;

    /// Takes out the first widget with the tag `tag` that the search of
    /// `get_child` finds, if there is one, and fits the panel and the
    /// containers on the way to that widget to what they hold then.
    fn remove(&mut self, tag: &str, size: TermSize) -> (widget: Option<Widget>)
        ensures
            widget == found(old(self).own_children(), tag@),
            removed(old(self).own_children(), final(self).own_children(), tag@, size),
            final(self).own_attr() == flexed(
                old(self).own_attr(),
                inner_size(old(self).own_attr().orientation, final(self).own_children(), size),
                size,
            ),
    ;

    /// Takes out the widgets with the tags `tags`, one after the other as
    /// `remove` does, and fits the panel to what it holds then.
    fn removem(&mut self, tags: Vec<&str>, size: TermSize) -> (widgets: Vec<Option<Widget>>)
        ensures
            exists|steps: Seq<Seq<Widget>>|
                removed_each(
                    old(self).own_children(),
                    final(self).own_children(),
                    tags@,
                    widgets@,
                    steps,
                    size,
                ),
            final(self).own_attr() == flexed(
                old(self).own_attr(),
                inner_size(old(self).own_attr().orientation, final(self).own_children(), size),
                size,
            ),
    ;

    /// The width and the height of the panel's content: along the direction
    /// in which the panel stacks its children the sum of what they take
    /// with their padding, across it the largest of them. Hidden children
    /// count for nothing, and a panel without children has a content of 0
    /// by 0.
    fn bounds(&self, size: TermSize) -> (inner: (Unit, Unit))
        ensures
            inner.0 == Unit::CoR(
                inner_size(self.own_attr().orientation, self.own_children(), size).0,
            ),
            inner.1 == Unit::CoR(
                inner_size(self.own_attr().orientation, self.own_children(), size).1,
            ),
    ;

    /// The sequence that draws the panel's children from `anchor` on.
    /// Children whose background differs from the panel's are marked to be
    /// filled.
    fn render_children(&mut self, anchor: Point, size: TermSize) -> (sequence: String)
        ensures
            sequence@ == children_sequence(
                old(self).own_attr(),
                old(self).own_children(),
                anchor,
                size,
            ),
            final(self).own_attr() == old(self).own_attr(),
            all_drawn(old(self).own_children(), final(self).own_children(), old(self).own_attr()),
    ;

    /// Fits the panel to its children: its width and height grow to the
    /// content with the border allowance, and a panel that flexes shrinks
    /// to that too.
    fn flex(&mut self, size: TermSize)
        ensures
            final(self).own_children() == old(self).own_children(),
            final(self).own_attr() == flexed(
                old(self).own_attr(),
                inner_size(old(self).own_attr().orientation, old(self).own_children(), size),
                size,
            ),
    ;
}

impl Panel for Container {
    open spec fn own_attr(&self) -> Attr {
        self.attr
    }

    open spec fn own_children(&self) -> Seq<Widget> {
        self.children@
    }

    fn attr(&self) -> (attr: &Attr) {
        &self.attr
    }

    fn children(&self) -> (children: &Vec<Widget>) {
        &self.children.0
    }

    fn split(&self) -> (parts: (&Attr, &Vec<Widget>)) {
        (&self.attr, &self.children.0)
    }

    fn split_mut(&mut self) -> (parts: (&mut Attr, &mut Vec<Widget>)) {
        (&mut self.attr, &mut self.children.0)
    }

    fn get_child(&mut self, tag: &str) -> (widget: Option<&mut Widget>) {
        find_widget(&mut self.children.0, tag)
    }

    fn child_at(&mut self, index: usize) -> (child: Option<&mut Widget>) {
        if index < self.children.0.len() {
            Some(&mut self.children.0[index])
        } else {
            None
        }
    }

    fn add(&mut self, widget: Widget, size: TermSize) {
        self.children.0.push(widget);
        fit_panel(&mut self.attr, &self.children.0, size);
    }

    fn addm(&mut self, widgets: Vec<Widget>, size: TermSize) {
        let mut widgets = widgets;
        self.children.0.append(&mut widgets);
        fit_panel(&mut self.attr, &self.children.0, size);
    }

    fn remove(&mut self, tag: &str, size: TermSize) -> (widget: Option<Widget>) {
        let widget = remove_widget(&mut self.children.0, tag, size);
        fit_panel(&mut self.attr, &self.children.0, size);
        widget
    }

    fn removem(&mut self, tags: Vec<&str>, size: TermSize) -> (widgets: Vec<Option<Widget>>) {
        let ghost before = self.children@;
        let widgets = remove_widgets(&mut self.children.0, &tags, size);
        let ghost after = self.children@;
        fit_panel(&mut self.attr, &self.children.0, size);
        proof {
            let steps = choose|steps: Seq<Seq<Widget>>|
                removed_each(before, after, tags@, widgets@, steps, size);
            assert(removed_each(
                old(self).own_children(),
                self.own_children(),
                tags@,
                widgets@,
                steps,
                size,
            ));
        }
        widgets
    }

    fn bounds(&self, size: TermSize) -> (inner: (Unit, Unit)) {
        let inner = content_size(self.attr.orientation, &self.children.0, size);
        (Unit::CoR(inner.0), Unit::CoR(inner.1))
    }

    fn render_children(&mut self, anchor: Point, size: TermSize) -> (sequence: String) {
        render_widgets(&self.attr, &mut self.children.0, anchor, size)
    }

    fn flex(&mut self, size: TermSize) {
        fit_panel(&mut self.attr, &self.children.0, size);
    }
}

impl Panel for Frame {
    open spec fn own_attr(&self) -> Attr {
        self.attr
    }

    open spec fn own_children(&self) -> Seq<Widget> {
        self.children@
    }

    fn attr(&self) -> (attr: &Attr) {
        &self.attr
    }

    fn children(&self) -> (children: &Vec<Widget>) {
        &self.children.0
    }

    fn split(&self) -> (parts: (&Attr, &Vec<Widget>)) {
        (&self.attr, &self.children.0)
    }

    fn split_mut(&mut self) -> (parts: (&mut Attr, &mut Vec<Widget>)) {
        (&mut self.attr, &mut self.children.0)
    }

    fn get_child(&mut self, tag: &str) -> (widget: Option<&mut Widget>) {
        find_widget(&mut self.children.0, tag)
    }

    fn child_at(&mut self, index: usize) -> (child: Option<&mut Widget>) {
        if index < self.children.0.len() {
            Some(&mut self.children.0[index])
        } else {
            None
        }
    }

    fn add(&mut self, widget: Widget, size: TermSize) {
        self.children.0.push(widget);
        fit_panel(&mut self.attr, &self.children.0, size);
    }

    fn addm(&mut self, widgets: Vec<Widget>, size: TermSize) {
        let mut widgets = widgets;
        self.children.0.append(&mut widgets);
        fit_panel(&mut self.attr, &self.children.0, size);
    }

    fn remove(&mut self, tag: &str, size: TermSize) -> (widget: Option<Widget>) {
        let widget = remove_widget(&mut self.children.0, tag, size);
        fit_panel(&mut self.attr, &self.children.0, size);
        widget
    }

    fn removem(&mut self, tags: Vec<&str>, size: TermSize) -> (widgets: Vec<Option<Widget>>) {
        let ghost before = self.children@;
        let widgets = remove_widgets(&mut self.children.0, &tags, size);
        let ghost after = self.children@;
        fit_panel(&mut self.attr, &self.children.0, size);
        proof {
            let steps = choose|steps: Seq<Seq<Widget>>|
                removed_each(before, after, tags@, widgets@, steps, size);
            assert(removed_each(
                old(self).own_children(),
                self.own_children(),
                tags@,
                widgets@,
                steps,
                size,
            ));
        }
        widgets
    }

    fn bounds(&self, size: TermSize) -> (inner: (Unit, Unit)) {
        let inner = content_size(self.attr.orientation, &self.children.0, size);
        (Unit::CoR(inner.0), Unit::CoR(inner.1))
    }

    fn render_children(&mut self, anchor: Point, size: TermSize) -> (sequence: String) {
        render_widgets(&self.attr, &mut self.children.0, anchor, size)
    }

    fn flex(&mut self, size: TermSize) {
        fit_panel(&mut self.attr, &self.children.0, size);
    }
}

} // verus!
