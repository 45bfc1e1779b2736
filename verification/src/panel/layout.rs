//! The size of a panel's content, and the fitting of a panel to it.

use crate::{
    style::orientation::Orientation,
    unit::{clamp_usize, count_sum, TermSize, Unit},
    widget::{attr::Attr, Widget, WidgetBase},
};
use vstd::prelude::*;

verus! {

/// The cells that a child with the attributes `attr` takes along the
/// direction `along` on a terminal of size `size`: none where it is hidden,
/// else its width or height with its padding.
pub open spec fn extent(attr: Attr, along: Orientation, size: TermSize) -> usize {
    if attr.hide {
        0
    } else {
        match along {
            Orientation::Horizontal => attr.outer_width().resolve(size),
            Orientation::Vertical => attr.outer_height().resolve(size),
        }
    }
}

/// The sum of the extents of `children` along `along`.
pub open spec fn extent_sum(children: Seq<Widget>, along: Orientation, size: TermSize) -> int
    decreases children.len(),
{
    if children.len() == 0 {
        0
    } else {
        extent_sum(children.drop_last(), along, size) + extent(
            children.last().attr(),
            along,
            size,
        )
    }
}

/// The largest of the extents of `children` along `along`; 0 where there
/// are none.
pub open spec fn extent_max(children: Seq<Widget>, along: Orientation, size: TermSize) -> int
    decreases children.len(),
{
    if children.len() == 0 {
        0
    } else {
        let before = extent_max(children.drop_last(), along, size);
        let last = extent(children.last().attr(), along, size);
        if last > before {
            last as int
        } else {
            before
        }
    }
}

/// The width and the height of the content of a panel that stacks
/// `children` in the direction `orientation`. Along the stacking direction
/// it is the sum of the children's extents, held to what `usize` can hold;
/// across it, the largest of them. Hidden children count for nothing, and
/// a panel without children has a content of 0 by 0.
pub open spec fn inner_size(orientation: Orientation, children: Seq<Widget>, size: TermSize) -> (
    usize,
    usize,
) {
    match orientation {
        Orientation::Horizontal => (
            clamp_usize(extent_sum(children, Orientation::Horizontal, size)),
            clamp_usize(extent_max(children, Orientation::Vertical, size)),
        ),
        Orientation::Vertical => (
            clamp_usize(extent_max(children, Orientation::Horizontal, size)),
            clamp_usize(extent_sum(children, Orientation::Vertical, size)),
        ),
    }
}

/// The border allowance: the cells that a panel's border takes beside its
/// content in each direction.
pub const BORDER: usize = 2;

/// A panel's width or height `current` fitted to a content of `inner` cells:
/// where it resolves to less than the content with the border allowance it
/// grows to that, and the `flex` of a panel lets it shrink to that too.
pub open spec fn fitted(current: Unit, inner: usize, flex: bool, size: TermSize) -> Unit {
    let target = clamp_usize(inner + BORDER);
    if current.resolve(size) < target || (flex && current.resolve(size) > target) {
        Unit::CoR(target)
    } else {
        current
    }
}

/// The attributes of a panel fitted to a content of `inner` (width,
/// height).
pub open spec fn flexed(attr: Attr, inner: (usize, usize), size: TermSize) -> Attr {
    Attr {
        width: fitted(attr.width, inner.0, attr.flex, size),
        height: fitted(attr.height, inner.1, attr.flex, size),
        ..attr
    }
}

proof fn lemma_extents_nonnegative(children: Seq<Widget>, along: Orientation, size: TermSize)
    ensures
        0 <= extent_sum(children, along, size),
        0 <= extent_max(children, along, size) <= usize::MAX,
    decreases children.len(),
{
    if children.len() > 0 {
        lemma_extents_nonnegative(children.drop_last(), along, size);
    }
}

fn extent_of(attr: &Attr, along: Orientation, size: TermSize) -> (cells: usize)
    ensures
        cells == extent(*attr, along, size),
{
    if attr.hide {
        0
    } else {
        match along {
            Orientation::Horizontal => attr.total_width().calc(size),
            Orientation::Vertical => attr.total_height().calc(size),
        }
    }
}

fn sum_of(children: &Vec<Widget>, along: Orientation, size: TermSize) -> (sum: usize)
    ensures
        sum == clamp_usize(extent_sum(children@, along, size)),
{
    let mut sum: usize = 0;
    let mut i: usize = 0;
    while i < children.len()
        invariant
            i <= children.len(),
            sum == clamp_usize(extent_sum(children@.take(i as int), along, size)),
        decreases children.len() - i,
    {
        proof {
            assert(children@.take(i + 1).drop_last() =~= children@.take(i as int));
            lemma_extents_nonnegative(children@.take(i as int), along, size);
        }
        sum = count_sum(sum, extent_of(children[i].style(), along, size));
        i += 1;
    }
    assert(children@.take(children.len() as int) =~= children@);
    sum
}

fn max_of(children: &Vec<Widget>, along: Orientation, size: TermSize) -> (max: usize)
    ensures
        max == clamp_usize(extent_max(children@, along, size)),
{
    let mut max: usize = 0;
    let mut i: usize = 0;
    while i < children.len()
        invariant
            i <= children.len(),
            max == extent_max(children@.take(i as int), along, size),
        decreases children.len() - i,
    {
        proof {
            assert(children@.take(i + 1).drop_last() =~= children@.take(i as int));
        }
        let cells = extent_of(children[i].style(), along, size);
        if cells > max {
            max = cells;
        }
        i += 1;
    }
    assert(children@.take(children.len() as int) =~= children@);
    max
}

/// The width and the height of the content of a panel that stacks
/// `children` in the direction `orientation`.
pub fn content_size(orientation: Orientation, children: &Vec<Widget>, size: TermSize) -> (inner: (
    usize,
    usize,
))
    ensures
        inner == inner_size(orientation, children@, size),
{
    match orientation {
        Orientation::Horizontal => (
            sum_of(children, Orientation::Horizontal, size),
            max_of(children, Orientation::Vertical, size),
        ),
        Orientation::Vertical => (
            max_of(children, Orientation::Horizontal, size),
            sum_of(children, Orientation::Vertical, size),
        ),
    }
}

fn fit(current: Unit, inner: usize, flex: bool, size: TermSize) -> (unit: Unit)
    ensures
        unit == fitted(current, inner, flex, size),
{
    let target = count_sum(inner, BORDER);
    let now = current.calc(size);
    if now < target || (flex && now > target) {
        Unit::CoR(target)
    } else {
        current
    }
}

/// Fits the attributes of a panel to its children.
pub fn fit_panel(attr: &mut Attr, children: &Vec<Widget>, size: TermSize)
    ensures
        *final(attr) == flexed(
            *old(attr),
            inner_size(old(attr).orientation, children@, size),
            size,
        ),
{
    let inner = content_size(attr.orientation, children, size);
    attr.width = fit(attr.width, inner.0, attr.flex, size);
    attr.height = fit(attr.height, inner.1, attr.flex, size);
}

/// What one child counts for in the sum and in the largest of the
/// extents: the sum is that of the others and the child's own extent, the
/// largest is the larger of the largest of the others and the child's own.
pub proof fn lemma_extent_of_member(
    children: Seq<Widget>,
    i: int,
    along: Orientation,
    size: TermSize,
)
    requires
        0 <= i < children.len(),
    ensures
        extent_sum(children, along, size) == extent_sum(children.remove(i), along, size) + extent(
            children[i].attr(),
            along,
            size,
        ),
        extent_max(children, along, size) == if extent(children[i].attr(), along, size)
            > extent_max(children.remove(i), along, size) {
            extent(children[i].attr(), along, size) as int
        } else {
            extent_max(children.remove(i), along, size)
        },
    decreases children.len(),
{
    if i == children.len() - 1 {
        assert(children.remove(i) =~= children.drop_last());
    } else {
        lemma_extent_of_member(children.drop_last(), i, along, size);
        assert(children.remove(i).drop_last() =~= children.drop_last().remove(i));
        assert(children.remove(i).last() == children.last());
    }
}

/// Fitting a panel twice to the same children is fitting it once.
pub proof fn lemma_flex_idempotent(attr: Attr, children: Seq<Widget>, size: TermSize)
    ensures
        ({
            let once = flexed(attr, inner_size(attr.orientation, children, size), size);
            flexed(once, inner_size(once.orientation, children, size), size) == once
        }),
{
}

/// A fitted panel is at least as wide and as high as its content with the
/// border allowance, and exactly so where it flexes.
pub proof fn lemma_flexed_fits(attr: Attr, inner: (usize, usize), size: TermSize)
    ensures
        flexed(attr, inner, size).width.resolve(size) >= clamp_usize(inner.0 + BORDER),
        flexed(attr, inner, size).height.resolve(size) >= clamp_usize(inner.1 + BORDER),
        attr.flex ==> flexed(attr, inner, size).width.resolve(size) == clamp_usize(
            inner.0 + BORDER,
        ) && flexed(attr, inner, size).height.resolve(size) == clamp_usize(inner.1 + BORDER),
        !attr.flex ==> flexed(attr, inner, size).width.resolve(size) >= attr.width.resolve(size)
            && flexed(attr, inner, size).height.resolve(size) >= attr.height.resolve(size),
{
}

/// A further child never makes the content of a panel smaller, in either
/// direction.
pub proof fn lemma_adding_never_shrinks(
    orientation: Orientation,
    children: Seq<Widget>,
    child: Widget,
    size: TermSize,
)
    ensures
        inner_size(orientation, children.push(child), size).0 >= inner_size(
            orientation,
            children,
            size,
        ).0,
        inner_size(orientation, children.push(child), size).1 >= inner_size(
            orientation,
            children,
            size,
        ).1,
{
    assert(children.push(child).drop_last() =~= children);
    lemma_extents_nonnegative(children, Orientation::Horizontal, size);
    lemma_extents_nonnegative(children, Orientation::Vertical, size);
}

/// A hidden child counts for nothing in the content of a panel, whatever
/// its size: the content is that of the panel without the child.
pub proof fn lemma_hidden_counts_nothing(
    orientation: Orientation,
    children: Seq<Widget>,
    i: int,
    size: TermSize,
)
    requires
        0 <= i < children.len(),
        children[i].attr().hide,
    ensures
        inner_size(orientation, children, size) == inner_size(
            orientation,
            children.remove(i),
            size,
        ),
{
    lemma_extent_of_member(children, i, Orientation::Horizontal, size);
    lemma_extent_of_member(children, i, Orientation::Vertical, size);
    lemma_extents_nonnegative(children.remove(i), Orientation::Horizontal, size);
    lemma_extents_nonnegative(children.remove(i), Orientation::Vertical, size);
}

/// The content of a panel depends only on what its children take in the
/// two directions.
pub proof fn lemma_content_by_extents(
    orientation: Orientation,
    a: Seq<Widget>,
    b: Seq<Widget>,
    size: TermSize,
)
    requires
        a.len() == b.len(),
        forall|i: int|
            0 <= i < a.len() ==> extent(
                (#[trigger] a[i]).attr(),
                Orientation::Horizontal,
                size,
            ) == extent(b[i].attr(), Orientation::Horizontal, size) && extent(
                a[i].attr(),
                Orientation::Vertical,
                size,
            ) == extent(b[i].attr(), Orientation::Vertical, size),
    ensures
        inner_size(orientation, a, size) == inner_size(orientation, b, size),
{
    lemma_extents_by_extents(a, b, Orientation::Horizontal, size);
    lemma_extents_by_extents(a, b, Orientation::Vertical, size);
}

proof fn lemma_extents_by_extents(
    a: Seq<Widget>,
    b: Seq<Widget>,
    along: Orientation,
    size: TermSize,
)
    requires
        a.len() == b.len(),
        forall|i: int|
            0 <= i < a.len() ==> extent((#[trigger] a[i]).attr(), along, size) == extent(
                b[i].attr(),
                along,
                size,
            ),
    ensures
        extent_sum(a, along, size) == extent_sum(b, along, size),
        extent_max(a, along, size) == extent_max(b, along, size),
    decreases a.len(),
{
    if a.len() > 0 {
        assert forall|i: int| 0 <= i < a.drop_last().len() implies extent(
            (#[trigger] a.drop_last()[i]).attr(),
            along,
            size,
        ) == extent(b.drop_last()[i].attr(), along, size) by {
            assert(a.drop_last()[i] == a[i]);
            assert(b.drop_last()[i] == b[i]);
        }
        lemma_extents_by_extents(a.drop_last(), b.drop_last(), along, size);
        assert(a.last() == a[a.len() - 1]);
        assert(b.last() == b[b.len() - 1]);
    }
}

} // verus!
