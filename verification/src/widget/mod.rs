//! The widgets, the tree they form, and the drawing of what all of them
//! have: a background and a border.

pub mod alert;
pub mod attr;
pub mod container;
pub mod label;
pub mod paragraph;
pub mod progress_bar;

use crate::{
    draw::{
        binds_sequence, box_sequence,
        cursor::{go, go_sequence},
        draw_binds, draw_box, draw_title, title_sequence,
    },
    style::{line::Line, text::TextStyle, PrintableStyle},
    text::{array_into_vec, push_repeated, repeated},
    unit::{Point, TermSize, Unit},
};
use attr::Attr;
use container::Container;
use label::Label;
use progress_bar::ProgressBar;
use vstd::prelude::*;
use vstd::std_specs::convert::FromSpecImpl;

verus! {

/// A node of the widget tree: one of the kinds of widget there are.
#[derive(PartialEq, Debug)]
pub enum Widget {
    Label(Label),
    ProgressBar(ProgressBar),
    Container(Container),
}

/// The widgets that a panel holds, in the order in which it lays them out.
#[derive(PartialEq, Default, Debug)]
pub struct WidgetList(pub Vec<Widget>);

impl View for WidgetList {
    type V = Seq<Widget>;

    open spec fn view(&self) -> Seq<Widget> {
        self.0@
    }
}

/// What every kind of widget offers: its attributes, and a copy of itself
/// as a node of the tree.
pub trait WidgetBase: Sized {
    /// The widget's attributes.
    spec fn attr_of(&self) -> Attr;

    /// The widget with `attr` in place of its attributes.
    spec fn with_attr(&self, attr: Attr) -> Self;

    /// The widget as a node of the tree.
    spec fn as_widget(&self) -> Widget;

    fn style(&self) -> (attr: &Attr)
        ensures
            *attr == self.attr_of(),
    ;

    fn style_mut(&mut self) -> (attr: &mut Attr)
        ensures
            *attr == old(self).attr_of(),
            *final(self) == old(self).with_attr(*final(attr)),
    ;

    fn wclone(&self) -> (copy: Widget)
        ensures
            alike(copy, self.as_widget()),
    ;
}

/// Whether two widgets are of the same kind and say the same: their
/// attributes, what is their own, and for containers their children, one by
/// one.
pub open spec fn alike(a: Widget, b: Widget) -> bool
    decreases a,
{
    match a {
        Widget::Label(x) => b matches Widget::Label(y) && x.attr.same(y.attr) && x.text@ == y.text@,
        Widget::ProgressBar(x) => b matches Widget::ProgressBar(y) && x.attr.same(y.attr)
            && x.progress == y.progress && x.bar_color == y.bar_color,
        Widget::Container(x) => b matches Widget::Container(y) && x.attr.same(y.attr) && all_alike(
            x.children@,
            y.children@,
        ),
    }
}

/// Whether two lists of widgets are alike one by one.
pub open spec fn all_alike(a: Seq<Widget>, b: Seq<Widget>) -> bool
    decreases a,
{
    a.len() == b.len() && forall|i: int| 0 <= i < a.len() ==> alike(#[trigger] a[i], b[i])
}

fn copy_widget(w: &Widget) -> (copy: Widget)
    ensures
        alike(copy, *w),
    decreases w,
{
    match w {
        Widget::Label(l) => Widget::Label(l.clone()),
        Widget::ProgressBar(p) => Widget::ProgressBar(p.clone()),
        Widget::Container(c) => Widget::Container(
            Container { attr: c.attr.clone(), children: WidgetList(copy_widgets(&c.children.0)) },
        ),
    }
}

fn copy_widgets(widgets: &Vec<Widget>) -> (copy: Vec<Widget>)
    ensures
        all_alike(copy@, widgets@),
    decreases widgets@,
{
    let mut copy: Vec<Widget> = Vec::new();
    let mut i: usize = 0;
    while i < widgets.len()
        invariant
            i <= widgets.len(),
            copy@.len() == i,
            forall|j: int| 0 <= j < i ==> alike(#[trigger] copy@[j], widgets@[j]),
        decreases widgets.len() - i,
    {
        copy.push(copy_widget(&widgets[i]));
        i += 1;
    }
    copy
}

/// What is sent to paint `rows` rows of `width` cells from `pos` downwards:
/// for each row the cursor's move to its first cell, and as many spaces.
pub open spec fn rows_sequence(pos: Point, width: usize, rows: nat, size: TermSize) -> Seq<char>
    decreases rows,
{
    if rows == 0 {
        Seq::empty()
    } else {
        go_sequence(pos, size) + repeated(" "@, width as nat) + rows_sequence(
            Point { x: pos.x, y: pos.y.plus(Unit::CoR(1)) },
            width,
            (rows - 1) as nat,
            size,
        )
    }
}

/// What is sent to paint the background of a widget whose top left corner
/// is at `anchor`: nothing unless the widget is to be filled; else its
/// background color and the rows of its box.
pub open spec fn fill_sequence(attr: Attr, anchor: Point, size: TermSize) -> Seq<char> {
    if attr.should_fill {
        attr.fill.sequence() + rows_sequence(
            anchor,
            attr.width.resolve(size),
            attr.height.resolve(size) as nat,
            size,
        )
    } else {
        Seq::empty()
    }
}

/// What is sent to draw the border of a widget whose top left corner is at
/// `anchor`: the border's colors, the box, with heavy lines for a selected
/// widget and light ones else, the bold style, the title and the hint of
/// the bindings.
pub open spec fn border_sequence(attr: Attr, anchor: Point, size: TermSize) -> Seq<char> {
    attr.border_color.sequence() + attr.border_fill.sequence() + box_sequence(
        anchor,
        attr,
        if attr.selected {
            Line::Heavy
        } else {
            Line::Light
        },
        size,
    ) + TextStyle::Bold.sequence() + title_sequence(anchor, attr, size) + binds_sequence(
        anchor,
        attr,
        size,
    )
}

/// What is sent to draw the background and the border of a widget.
pub open spec fn outline_sequence(attr: Attr, anchor: Point, size: TermSize) -> Seq<char> {
    fill_sequence(attr, anchor, size) + border_sequence(attr, anchor, size)
}

/// The sequence that paints the background of a widget with the attributes
/// `attr`.
pub fn fill(attr: &Attr, anchor: Point, size: TermSize) -> (sequence: String)
    ensures
        sequence@ == fill_sequence(*attr, anchor, size),
{
    let mut out = String::new();
    if attr.should_fill {
        let h = attr.height.calc(size);
        let w = attr.width.calc(size);
        let mut pos = anchor;
        out.append(attr.fill.print().as_str());
        let ghost whole = out@ + rows_sequence(anchor, w, h as nat, size);
        let mut left: usize = h;
        while left > 0
            invariant
                whole == out@ + rows_sequence(pos, w, left as nat, size),
            decreases left,
        {
            let ghost before = out@;
            out.append(go(pos, size).as_str());
            push_repeated(&mut out, " ", w);
            let next = Point { x: pos.x, y: pos.y + Unit::CoR(1) };
            proof {
                let rest = rows_sequence(next, w, (left - 1) as nat, size);
                assert(out@ + rest =~= before + (go_sequence(pos, size) + repeated(" "@, w as nat)
                    + rest));
            }
            pos = next;
            left = left - 1;
        }
        assert(out@ + Seq::<char>::empty() =~= out@);
    }
    out
}

/// The sequence that draws the border of a widget with the attributes
/// `attr`.
pub fn border(attr: &Attr, anchor: Point, size: TermSize) -> (sequence: String)
    ensures
        sequence@ == border_sequence(*attr, anchor, size),
{
    let mut out = attr.border_color.print();
    out.append(attr.border_fill.print().as_str());
    out.append(
        draw_box(
            anchor,
            attr,
            if attr.selected {
                Line::Heavy
            } else {
                Line::Light
            },
            size,
        ).as_str(),
    );
    out.append(TextStyle::Bold.print().as_str());
    out.append(draw_title(anchor, attr, size).as_str());
    out.append(draw_binds(anchor, attr, size).as_str());
    out
}

/// The sequence that draws the background and the border of a widget with
/// the attributes `attr`.
pub fn outline(attr: &Attr, anchor: Point, size: TermSize) -> (sequence: String)
    ensures
        sequence@ == outline_sequence(*attr, anchor, size),
{
    let mut out = fill(attr, anchor, size);
    out.append(border(attr, anchor, size).as_str());
    out
}

impl Widget {
    /// The attributes of the widget.
    pub open spec fn attr(self) -> Attr {
        match self {
            Widget::Label(l) => l.attr,
            Widget::ProgressBar(p) => p.attr,
            Widget::Container(c) => c.attr,
        }
    }

    /// The widget with `attr` in place of its attributes.
    pub open spec fn having(self, attr: Attr) -> Widget {
        match self {
            Widget::Label(l) => Widget::Label(Label { attr, ..l }),
            Widget::ProgressBar(p) => Widget::ProgressBar(ProgressBar { attr, ..p }),
            Widget::Container(c) => Widget::Container(Container { attr, ..c }),
        }
    }

    pub fn set_style(&mut self, attr: Attr)
        ensures
            *final(self) == old(self).having(attr),
    {
        match self {
            Widget::Label(l) => {
                l.attr = attr;
            },
            Widget::ProgressBar(p) => {
                p.attr = attr;
            },
            Widget::Container(c) => {
                c.attr = attr;
            },
        }
    }

    /// The sequence that draws the inside of the widget, with its top left
    /// corner at `anchor`. Drawing a container marks those of its children
    /// that are to be filled.
    pub fn render(&mut self, anchor: Point, size: TermSize) -> (sequence: String)
        ensures
            sequence@ == crate::panel::render::body_sequence(*old(self), old(self).attr(), anchor, size),
            match *old(self) {
                Widget::Container(c) => *final(self) matches Widget::Container(c2) && c2.attr
                    == c.attr && crate::panel::render::all_drawn(c.children@, c2.children@, c.attr),
                _ => *final(self) == *old(self),
            },
    {
        crate::panel::render::render_widget(self, anchor, size)
    }

    /// The sequence that draws the background and the border of the
    /// widget.
    pub fn outline(&self, anchor: Point, size: TermSize) -> (sequence: String)
        ensures
            sequence@ == outline_sequence(self.attr(), anchor, size),
    {
        outline(self.style(), anchor, size)
    }

    /// The sequence that paints the background of the widget.
    pub fn fill(&self, anchor: Point, size: TermSize) -> (sequence: String)
        ensures
            sequence@ == fill_sequence(self.attr(), anchor, size),
    {
        fill(self.style(), anchor, size)
    }

    /// The sequence that draws the border of the widget.
    pub fn border(&self, anchor: Point, size: TermSize) -> (sequence: String)
        ensures
            sequence@ == border_sequence(self.attr(), anchor, size),
    {
        border(self.style(), anchor, size)
    }

    /// The widget as a panel, where it is one.
    pub fn as_panel(&mut self) -> (panel: Option<&mut Container>)
        ensures
            match panel {
                Some(c) => *old(self) == Widget::Container(*c) && *final(self) == Widget::Container(
                    *final(c),
                ),
                None => !(*old(self) is Container) && *final(self) == *old(self),
            },
    {
        match self {
            Widget::Container(c) => Some(c),
            _ => None,
        }
    }
}

impl WidgetBase for Widget {
    open spec fn attr_of(&self) -> Attr {
        self.attr()
    }

    open spec fn with_attr(&self, attr: Attr) -> Widget {
        self.having(attr)
    }

    open spec fn as_widget(&self) -> Widget {
        *self
    }

    fn style(&self) -> (attr: &Attr) {
        match self {
            Widget::Label(l) => &l.attr,
            Widget::ProgressBar(p) => &p.attr,
            Widget::Container(c) => &c.attr,
        }
    }

    fn style_mut(&mut self) -> (attr: &mut Attr) {
        match self {
            Widget::Label(l) => &mut l.attr,
            Widget::ProgressBar(p) => &mut p.attr,
            Widget::Container(c) => &mut c.attr,
        }
    }

    fn wclone(&self) -> (copy: Widget) {
        copy_widget(self)
    }
}

impl WidgetBase for Label {
    open spec fn attr_of(&self) -> Attr {
        self.attr
    }

    open spec fn with_attr(&self, attr: Attr) -> Label {
        Label { attr, ..*self }
    }

    open spec fn as_widget(&self) -> Widget {
        Widget::Label(*self)
    }

    fn style(&self) -> (attr: &Attr) {
        &self.attr
    }

    fn style_mut(&mut self) -> (attr: &mut Attr) {
        &mut self.attr
    }

    fn wclone(&self) -> (copy: Widget) {
        Widget::Label(self.clone())
    }
}

impl WidgetBase for ProgressBar {
    open spec fn attr_of(&self) -> Attr {
        self.attr
    }

    open spec fn with_attr(&self, attr: Attr) -> ProgressBar {
        ProgressBar { attr, ..*self }
    }

    open spec fn as_widget(&self) -> Widget {
        Widget::ProgressBar(*self)
    }

    fn style(&self) -> (attr: &Attr) {
        &self.attr
    }

    fn style_mut(&mut self) -> (attr: &mut Attr) {
        &mut self.attr
    }

    fn wclone(&self) -> (copy: Widget) {
        Widget::ProgressBar(self.clone())
    }
}

impl WidgetBase for Container {
    open spec fn attr_of(&self) -> Attr {
        self.attr
    }

    open spec fn with_attr(&self, attr: Attr) -> Container {
        Container { attr, ..*self }
    }

    open spec fn as_widget(&self) -> Widget {
        Widget::Container(*self)
    }

    fn style(&self) -> (attr: &Attr) {
        &self.attr
    }

    fn style_mut(&mut self) -> (attr: &mut Attr) {
        &mut self.attr
    }

    fn wclone(&self) -> (copy: Widget) {
        Widget::Container(
            Container {
                attr: self.attr.clone(),
                children: WidgetList(copy_widgets(&self.children.0)),
            },
        )
    }
}

impl Clone for Widget {
    fn clone(&self) -> (copy: Widget)
        ensures
            alike(copy, *self),
    {
        copy_widget(self)
    }
}

impl Clone for WidgetList {
    fn clone(&self) -> (copy: WidgetList)
        ensures
            all_alike(copy@, self@),
    {
        WidgetList(copy_widgets(&self.0))
    }
}

impl Clone for Container {
    fn clone(&self) -> (copy: Container)
        ensures
            copy.attr.same(self.attr),
            all_alike(copy.children@, self.children@),
    {
        Container { attr: self.attr.clone(), children: self.children.clone() }
    }
}

impl FromSpecImpl<Widget> for WidgetList {
    open spec fn obeys_from_spec() -> bool {
        false
    }

    open spec fn from_spec(widget: Widget) -> WidgetList {
        arbitrary()
    }
}

impl From<Widget> for WidgetList {
    fn from(widget: Widget) -> (list: WidgetList)
        ensures
            list@ == seq![widget],
    {
        let mut widgets: Vec<Widget> = Vec::new();
        widgets.push(widget);
        assert(widgets@ =~= seq![widget]);
        WidgetList(widgets)
    }
}

impl FromSpecImpl<Vec<Widget>> for WidgetList {
    open spec fn obeys_from_spec() -> bool {
        true
    }

    open spec fn from_spec(widgets: Vec<Widget>) -> WidgetList {
        WidgetList(widgets)
    }
}

impl From<Vec<Widget>> for WidgetList {
    fn from(widgets: Vec<Widget>) -> (list: WidgetList) {
        WidgetList(widgets)
    }
}

impl<const N: usize> FromSpecImpl<[Widget; N]> for WidgetList {
    open spec fn obeys_from_spec() -> bool {
        false
    }

    open spec fn from_spec(widgets: [Widget; N]) -> WidgetList {
        arbitrary()
    }
}

impl<const N: usize> From<[Widget; N]> for WidgetList {
    fn from(widgets: [Widget; N]) -> (list: WidgetList)
        ensures
            list@ == widgets@,
    {
        WidgetList(array_into_vec(widgets))
    }
}

} // verus!
