//! The placing and drawing of a panel's children.

use super::layout::{content_size, extent, inner_size, lemma_content_by_extents};
use crate::{
    style::{
        align::{AlignX, AlignY},
        orientation::Orientation,
        reset_sequence, PrintableStyle,
    },
    unit::{clamp_usize, count_diff, Point, TermSize, Unit},
    widget::{
        attr::Attr,
        label::label_sequence,
        outline, outline_sequence,
        progress_bar::{bar_sequence, ProgressBar},
        Widget, WidgetBase,
    },
};
use vstd::prelude::*;

verus! {

/// The attributes that a child is drawn with in a panel with the attributes
/// `parent`: a child whose background differs from the panel's is to be
/// filled.
pub open spec fn marked(child: Attr, parent: Attr) -> Attr {
    if child.fill != parent.fill {
        Attr { should_fill: true, ..child }
    } else {
        child
    }
}

/// Where a child with the attributes `child` is drawn by a panel whose
/// cursor is at `cursor`. Along the stacking direction it follows its
/// leading padding. Across it the panel's alignment decides: at the near
/// side the child follows its padding; in the middle it is moved by half
/// the content's extent less half its own; at the far side by the content's
/// extent less its own with padding.
pub open spec fn place(
    parent: Attr,
    inner: (usize, usize),
    cursor: Point,
    child: Attr,
    size: TermSize,
) -> Point {
    match parent.orientation {
        Orientation::Horizontal => Point {
            x: cursor.x.plus(child.padding_left),
            y: cursor.y.plus(
                match parent.aligny {
                    AlignY::Top => child.padding_top,
                    AlignY::Center => Unit::CoR(
                        clamp_usize(inner.1 / 2 - child.height.resolve(size) / 2),
                    ),
                    AlignY::Bottom => Unit::CoR(inner.1).minus(child.outer_height()),
                },
            ),
        },
        Orientation::Vertical => Point {
            x: cursor.x.plus(
                match parent.alignx {
                    AlignX::Left => child.padding_left,
                    AlignX::Center => Unit::CoR(
                        clamp_usize(inner.0 / 2 - child.width.resolve(size) / 2),
                    ),
                    AlignX::Right => Unit::CoR(inner.0).minus(child.outer_width()),
                },
            ),
            y: cursor.y.plus(child.padding_top),
        },
    }
}

/// Where the cursor of a panel anchored at `anchor` is after a child that
/// was drawn at `at`: along the stacking direction behind the child and its
/// trailing padding, across it back at the anchor.
pub open spec fn advance(parent: Attr, anchor: Point, at: Point, child: Attr) -> Point {
    match parent.orientation {
        Orientation::Horizontal => Point {
            x: at.x.plus(child.width.plus(child.padding_right)),
            y: anchor.y,
        },
        Orientation::Vertical => Point {
            x: anchor.x,
            y: at.y.plus(child.height.plus(child.padding_bottom)),
        },
    }
}

/// What drawing the inside of the widget `w` at `at` sends, with `attr` as
/// its attributes: the text of a label, the bar of a progress bar, and for
/// a container its children, from the cell inside its top left corner on.
pub open spec fn body_sequence(w: Widget, attr: Attr, at: Point, size: TermSize) -> Seq<char>
    decreases w, 0nat,
{
    match w {
        Widget::Label(l) => label_sequence(attr, l.text@, at, size),
        Widget::ProgressBar(p) => bar_sequence(ProgressBar { attr, ..p }, at, size),
        Widget::Container(c) => children_sequence(
            attr,
            c.children@,
            at.shifted(Unit::CoR(1), Unit::CoR(1)),
            size,
        ),
    }
}

/// What a panel sends for one child drawn at `at`: its background and
/// border, its background color, its inside, and the reset of the styles.
pub open spec fn child_sequence(w: Widget, attr: Attr, at: Point, size: TermSize) -> Seq<char>
    decreases w, 1nat,
{
    outline_sequence(attr, at, size) + attr.fill.sequence() + body_sequence(w, attr, at, size)
        + reset_sequence()
}

/// What a panel with the attributes `parent` sends for its children from
/// the `k`th on, with its cursor at `cursor`: each child that is not hidden
/// is drawn at its place, and the cursor moves on behind it.
pub open spec fn sequence_from(
    parent: Attr,
    children: Seq<Widget>,
    inner: (usize, usize),
    anchor: Point,
    cursor: Point,
    k: int,
    size: TermSize,
) -> Seq<char>
    decreases children, children.len() - k,
{
    if k < 0 || k >= children.len() {
        Seq::empty()
    } else if children[k].attr().hide {
        sequence_from(parent, children, inner, anchor, cursor, k + 1, size)
    } else {
        let attr = marked(children[k].attr(), parent);
        let at = place(parent, inner, cursor, attr, size);
        child_sequence(children[k], attr, at, size) + sequence_from(
            parent,
            children,
            inner,
            anchor,
            advance(parent, anchor, at, attr),
            k + 1,
            size,
        )
    }
}

/// What a panel with the attributes `parent` sends to draw `children` from
/// `anchor` on: one forward pass over the children in their order.
pub open spec fn children_sequence(
    parent: Attr,
    children: Seq<Widget>,
    anchor: Point,
    size: TermSize,
) -> Seq<char>
    decreases children, children.len() + 1,
{
    sequence_from(
        parent,
        children,
        inner_size(parent.orientation, children, size),
        anchor,
        anchor,
        0,
        size,
    )
}

/// Whether `after` is the widget `before` once a panel with the attributes
/// `parent` has drawn it: a hidden widget is as before; another one has the
/// attributes it was drawn with, and a container's children are as the
/// container has drawn them.
pub open spec fn drawn(before: Widget, after: Widget, parent: Attr) -> bool
    decreases before, 0nat,
{
    if before.attr().hide {
        after == before
    } else {
        let attr = marked(before.attr(), parent);
        match before {
            Widget::Container(c) => after matches Widget::Container(c2) && c2.attr == attr
                && all_drawn(c.children@, c2.children@, attr),
            _ => after == before.having(attr),
        }
    }
}

/// Whether `after` holds the widgets of `before`, each as the panel has
/// drawn it.
pub open spec fn all_drawn(before: Seq<Widget>, after: Seq<Widget>, parent: Attr) -> bool
    decreases before, 1nat,
{
    before.len() == after.len() && forall|i: int|
        0 <= i < before.len() ==> drawn(#[trigger] before[i], after[i], parent)
}

/// The number of widgets in the tree under `w`, `w` included.
pub open spec fn weight(w: Widget) -> nat
    decreases w,
{
    match w {
        Widget::Container(c) => 1 + weights(c.children@),
        _ => 1,
    }
}

/// The number of widgets in the trees under `widgets`.
pub open spec fn weights(widgets: Seq<Widget>) -> nat
    decreases widgets,
{
    if widgets.len() == 0 {
        0
    } else {
        weights(widgets.drop_last()) + weight(widgets.last())
    }
}

proof fn lemma_weight_of_member(widgets: Seq<Widget>, i: int)
    requires
        0 <= i < widgets.len(),
    ensures
        weight(widgets[i]) <= weights(widgets),
    decreases widgets.len(),
{
    if i < widgets.len() - 1 {
        lemma_weight_of_member(widgets.drop_last(), i);
    }
}

fn place_child(parent: &Attr, inner: (usize, usize), cursor: Point, child: &Attr, size: TermSize) -> (at:
    Point)
    ensures
        at == place(*parent, inner, cursor, *child, size),
{
    match parent.orientation {
        Orientation::Horizontal => Point {
            x: cursor.x + child.padding_left,
            y: cursor.y + match parent.aligny {
                AlignY::Top => child.padding_top,
                AlignY::Center => Unit::CoR(count_diff(inner.1 / 2, child.height.calc(size) / 2)),
                AlignY::Bottom => Unit::CoR(inner.1) - child.total_height(),
            },
        },
        Orientation::Vertical => Point {
            x: cursor.x + match parent.alignx {
                AlignX::Left => child.padding_left,
                AlignX::Center => Unit::CoR(count_diff(inner.0 / 2, child.width.calc(size) / 2)),
                AlignX::Right => Unit::CoR(inner.0) - child.total_width(),
            },
            y: cursor.y + child.padding_top,
        },
    }
}

fn advance_cursor(parent: &Attr, anchor: Point, at: Point, child: &Attr) -> (cursor: Point)
    ensures
        cursor == advance(*parent, anchor, at, *child),
{
    match parent.orientation {
        Orientation::Horizontal => Point {
            x: at.x + (child.width + child.padding_right),
            y: anchor.y,
        },
        Orientation::Vertical => Point {
            x: anchor.x,
            y: at.y + (child.height + child.padding_bottom),
        },
    }
}

/// The sequence that draws the inside of the widget `w` at `at`. Drawing
/// a container marks those of its children that are to be filled.
pub fn render_widget(w: &mut Widget, at: Point, size: TermSize) -> (sequence: String)
    ensures
        sequence@ == body_sequence(*old(w), old(w).attr(), at, size),
        match *old(w) {
            Widget::Container(c) => *final(w) matches Widget::Container(c2) && c2.attr == c.attr
                && all_drawn(c.children@, c2.children@, c.attr),
            _ => *final(w) == *old(w),
        },
    decreases weight(*old(w)), 0nat,
{
    match w {
        Widget::Label(l) => l.render(at, size),
        Widget::ProgressBar(p) => p.render(at, size),
        Widget::Container(c) => render_widgets(
            &c.attr,
            &mut c.children.0,
            at.offset(Unit::CoR(1), Unit::CoR(1)),
            size,
        ),
    }
}

/// The sequence that draws one child that is not hidden for a panel with
/// the attributes `parent` whose cursor is at `cursor`, and the place where
/// the child was drawn.
#[verifier::rlimit(60)]
fn render_child(
    parent: &Attr,
    child: &mut Widget,
    inner: (usize, usize),
    cursor: Point,
    size: TermSize,
) -> (drawing: (String, Point))
    requires
        !old(child).attr().hide,
    ensures
        drawing.1 == place(*parent, inner, cursor, marked(old(child).attr(), *parent), size),
        drawing.0@ == child_sequence(
            *old(child),
            marked(old(child).attr(), *parent),
            drawing.1,
            size,
        ),
        drawn(*old(child), *final(child), *parent),
        final(child).attr() == marked(old(child).attr(), *parent),
    decreases weight(*old(child)), 1nat,
{
    if child.style().fill != parent.fill {
        let attr = child.style_mut();
        attr.should_fill = true;
    }
    let ghost attr = marked(old(child).attr(), *parent);
    assert(*child == old(child).having(attr));
    let at = place_child(parent, inner, cursor, child.style(), size);
    let mut out = outline(child.style(), at, size);
    out.append(child.style().fill.print().as_str());
    proof {
        lemma_weight_ignores_attr(*old(child), attr);
        lemma_body_ignores_attr(*old(child), attr, at, size);
    }
    let body = render_widget(child, at, size);
    out.append(body.as_str());
    out.append(crate::style::reset().as_str());
    (out, at)
}

/// The sequence that draws `children` for a panel with the attributes
/// `parent` from `anchor` on, in one forward pass. A child whose background
/// differs from the panel's is marked to be filled before it is drawn.
#[verifier::rlimit(60)]
pub fn render_widgets(parent: &Attr, children: &mut Vec<Widget>, anchor: Point, size: TermSize) -> (sequence:
    String)
    ensures
        sequence@ == children_sequence(*parent, old(children)@, anchor, size),
        all_drawn(old(children)@, final(children)@, *parent),
    decreases weights(old(children)@), 2nat,
{
    let inner = content_size(parent.orientation, children, size);
    let mut out = String::new();
    let mut pos = anchor;
    let mut i: usize = 0;
    let ghost whole = children_sequence(*parent, old(children)@, anchor, size);
    assert(out@ + whole =~= whole);
    while i < children.len()
        invariant
            i <= children.len(),
            children@.len() == old(children)@.len(),
            forall|j: int| 0 <= j < i ==> drawn(#[trigger] old(children)@[j], children@[j], *parent),
            forall|j: int| i <= j < children.len() ==> children@[j] == old(children)@[j],
            whole == out@ + sequence_from(
                *parent,
                old(children)@,
                inner,
                anchor,
                pos,
                i as int,
                size,
            ),
        decreases children.len() - i,
    {
        let ghost before = old(children)@[i as int];
        let ghost sent = out@;
        if !children[i].style().hide {
            proof {
                lemma_weight_of_member(old(children)@, i as int);
            }
            let (drawing, at) = render_child(parent, &mut children[i], inner, pos, size);
            out.append(drawing.as_str());
            let next = advance_cursor(parent, anchor, at, children[i].style());
            proof {
                let rest = sequence_from(
                    *parent,
                    old(children)@,
                    inner,
                    anchor,
                    next,
                    i + 1,
                    size,
                );
                assert(out@ + rest =~= sent + (drawing@ + rest));
            }
            pos = next;
        }
        i += 1;
    }
    assert(out@ + Seq::<char>::empty() =~= out@);
    out
}

/// The number of widgets under a widget does not depend on its attributes.
proof fn lemma_weight_ignores_attr(w: Widget, attr: Attr)
    ensures
        weight(w.having(attr)) == weight(w),
{
}

/// What drawing a widget's inside sends depends on the attributes it is
/// drawn with, not on those it holds.
proof fn lemma_body_ignores_attr(w: Widget, attr: Attr, at: Point, size: TermSize)
    ensures
        body_sequence(w.having(attr), attr, at, size) == body_sequence(w, attr, at, size),
{
}

/// Drawing the children of a panel changes nothing of their sizes, so the
/// content of the panel is afterwards what it was.
pub proof fn lemma_drawing_keeps_content(
    before: Seq<Widget>,
    after: Seq<Widget>,
    parent: Attr,
    orientation: Orientation,
    size: TermSize,
)
    requires
        all_drawn(before, after, parent),
    ensures
        inner_size(orientation, after, size) == inner_size(orientation, before, size),
{
    assert forall|i: int| 0 <= i < after.len() implies extent(
        (#[trigger] after[i]).attr(),
        Orientation::Horizontal,
        size,
    ) == extent(before[i].attr(), Orientation::Horizontal, size) && extent(
        after[i].attr(),
        Orientation::Vertical,
        size,
    ) == extent(before[i].attr(), Orientation::Vertical, size) by {
        assert(drawn(before[i], after[i], parent));
    }
    lemma_content_by_extents(orientation, after, before, size);
}

} // verus!
