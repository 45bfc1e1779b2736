//! Finding and removing widgets by their tag.

use super::layout::{fit_panel, flexed, inner_size};
use crate::{
    text::same_text,
    unit::TermSize,
    widget::{attr::Attr, Widget, WidgetBase},
};
use vstd::prelude::*;

verus! {

/// Whether the widget `w` has the tag `tag`, or holds a widget that has it.
pub open spec fn holds_tag(w: Widget, tag: Seq<char>) -> bool
    decreases w, 0nat,
{
    w.attr().tag@ == tag || match w {
        Widget::Container(c) => holder(c.children@, tag, 0) < c.children@.len(),
        _ => false,
    }
}

/// The position of the first of `children` from the `k`th on that has the
/// tag `tag` or holds a widget that has it; their number where there is
/// none.
pub open spec fn holder(children: Seq<Widget>, tag: Seq<char>, k: int) -> int
    decreases children, children.len() - k,
{
    if k < 0 || k >= children.len() {
        children.len() as int
    } else if holds_tag(children[k], tag) {
        k
    } else {
        holder(children, tag, k + 1)
    }
}

/// The first widget with the tag `tag` that a search of `children` meets
/// which looks at each child and then, before it goes on to the next, at
/// what that child holds.
pub open spec fn found(children: Seq<Widget>, tag: Seq<char>) -> Option<Widget>
    decreases children, children.len() + 1,
{
    let i = holder(children, tag, 0);
    if i < 0 || i >= children.len() {
        None
    } else if children[i].attr().tag@ == tag {
        Some(children[i])
    } else {
        match children[i] {
            Widget::Container(c) => found(c.children@, tag),
            _ => None,
        }
    }
}

/// Whether `after` is `before` with `new` in the place of the widget that
/// the search for `tag` finds, and all else as it was.
pub open spec fn replaced(before: Seq<Widget>, after: Seq<Widget>, tag: Seq<char>, new: Widget) -> bool
    decreases before,
{
    let i = holder(before, tag, 0);
    &&& 0 <= i < before.len()
    &&& after.len() == before.len()
    &&& forall|j: int| 0 <= j < before.len() && j != i ==> after[j] == before[j]
    &&& if before[i].attr().tag@ == tag {
        after[i] == new
    } else {
        before[i] matches Widget::Container(c) && after[i] matches Widget::Container(c2) && c2.attr
            == c.attr && replaced(c.children@, c2.children@, tag, new)
    }
}

/// Whether `after` is `before` without the widget that the search for `tag`
/// finds. The containers on the way down to that widget are fitted to what
/// they hold afterwards; all else is as it was.
pub open spec fn removed(before: Seq<Widget>, after: Seq<Widget>, tag: Seq<char>, size: TermSize) -> bool
    decreases before,
{
    let i = holder(before, tag, 0);
    if i < 0 || i >= before.len() {
        after == before
    } else if before[i].attr().tag@ == tag {
        after == before.remove(i)
    } else {
        &&& after.len() == before.len()
        &&& forall|j: int| 0 <= j < before.len() && j != i ==> after[j] == before[j]
        &&& before[i] matches Widget::Container(c) && after[i] matches Widget::Container(c2)
            && removed(c.children@, c2.children@, tag, size) && c2.attr == flexed(
            c.attr,
            inner_size(c.attr.orientation, c2.children@, size),
            size,
        )
    }
}

/// What `holder` returns: a position from `k` on, or the number of
/// children; where it is a position, the child there has the tag or holds
/// it, and no child from `k` up to it does.
pub proof fn lemma_holder(children: Seq<Widget>, tag: Seq<char>, k: int)
    requires
        0 <= k <= children.len(),
    ensures
        k <= holder(children, tag, k) <= children.len(),
        holder(children, tag, k) < children.len() ==> holds_tag(
            children[holder(children, tag, k)],
            tag,
        ),
        forall|j: int| k <= j < holder(children, tag, k) ==> !holds_tag(#[trigger] children[j], tag),
    decreases children.len() - k,
{
    if k < children.len() && !holds_tag(children[k], tag) {
        lemma_holder(children, tag, k + 1);
    }
}

/// The search finds a widget exactly where one of the children has the tag
/// or holds it, and the widget it finds has the tag.
pub proof fn lemma_found(children: Seq<Widget>, tag: Seq<char>)
    ensures
        found(children, tag) is Some <==> holder(children, tag, 0) < children.len(),
        found(children, tag) matches Some(w) ==> w.attr().tag@ == tag,
    decreases children,
{
    lemma_holder(children, tag, 0);
    let i = holder(children, tag, 0);
    if i < children.len() && children[i].attr().tag@ != tag {
        match children[i] {
            Widget::Container(c) => {
                lemma_found(c.children@, tag);
            },
            _ => {},
        }
    }
}

fn has_tag(w: &Widget, tag: &str) -> (has: bool)
    ensures
        has == holds_tag(*w, tag@),
    decreases w, 0nat,
{
    if same_text(w.style().tag.as_str(), tag) {
        true
    } else {
        match w {
            Widget::Container(c) => locate(&c.children.0, tag) < c.children.0.len(),
            _ => false,
        }
    }
}

fn locate(children: &Vec<Widget>, tag: &str) -> (i: usize)
    ensures
        i == holder(children@, tag@, 0),
        i <= children@.len(),
    decreases children@, children@.len() + 1,
{
    let mut i: usize = 0;
    while i < children.len()
        invariant
            i <= children.len(),
            holder(children@, tag@, 0) == holder(children@, tag@, i as int),
        decreases children.len() - i,
    {
        if has_tag(&children[i], tag) {
            return i;
        }
        i += 1;
    }
    i
}

/// The first widget with the tag `tag` among `children` and what they
/// hold.
pub fn find_widget<'a>(children: &'a mut Vec<Widget>, tag: &str) -> (widget: Option<&'a mut Widget>)
    ensures
        match widget {
            Some(w) => found(old(children)@, tag@) == Some(*w) && replaced(
                old(children)@,
                final(children)@,
                tag@,
                *final(w),
            ),
            None => found(old(children)@, tag@) is None && final(children)@ == old(children)@,
        },
    decreases old(children)@,
{
    let i = locate(children, tag);
    proof {
        lemma_holder(children@, tag@, 0);
    }
    if i >= children.len() {
        None
    } else if same_text(children[i].style().tag.as_str(), tag) {
        Some(&mut children[i])
    } else {
        match &mut children[i] {
            Widget::Container(c) => {
                proof {
                    lemma_found(c.children@, tag@);
                }
                find_widget(&mut c.children.0, tag)
            },
            _ => None,
        }
    }
}

/// Takes the first widget with the tag `tag` out of `children` or of what
/// they hold, and fits the containers on the way to it.
pub fn remove_widget(children: &mut Vec<Widget>, tag: &str, size: TermSize) -> (widget: Option<Widget>)
    ensures
        widget == found(old(children)@, tag@),
        removed(old(children)@, final(children)@, tag@, size),
    decreases old(children)@,
{
    let i = locate(children, tag);
    proof {
        lemma_holder(children@, tag@, 0);
    }
    if i >= children.len() {
        None
    } else if same_text(children[i].style().tag.as_str(), tag) {
        Some(children.remove(i))
    } else {
        match &mut children[i] {
            Widget::Container(c) => {
                let widget = remove_widget(&mut c.children.0, tag, size);
                fit_panel(&mut c.attr, &c.children.0, size);
                widget
            },
            _ => None,
        }
    }
}

/// Whether `steps` are the lists of widgets on the way from `before` to
/// `after` as the widgets with the tags `tags` are taken out one after the
/// other, and `widgets` what was taken out for each tag.
pub open spec fn removed_each(
    before: Seq<Widget>,
    after: Seq<Widget>,
    tags: Seq<&str>,
    widgets: Seq<Option<Widget>>,
    steps: Seq<Seq<Widget>>,
    size: TermSize,
) -> bool {
    &&& steps.len() == tags.len() + 1
    &&& widgets.len() == tags.len()
    &&& steps[0] == before
    &&& steps[tags.len() as int] == after
    &&& forall|k: int|
        0 <= k < tags.len() ==> removed(#[trigger] steps[k], steps[k + 1], tags[k]@, size)
            && widgets[k] == found(steps[k], tags[k]@)
}

/// Takes the widgets with the tags `tags` out of `children` or of what they
/// hold, one after the other, and gives for each tag what was taken out.
pub fn remove_widgets(children: &mut Vec<Widget>, tags: &Vec<&str>, size: TermSize) -> (widgets: Vec<
    Option<Widget>,
>)
    ensures
        exists|steps: Seq<Seq<Widget>>|
            removed_each(old(children)@, final(children)@, tags@, widgets@, steps, size),
{
    let mut widgets: Vec<Option<Widget>> = Vec::new();
    let mut i: usize = 0;
    let ghost mut steps: Seq<Seq<Widget>> = seq![children@];
    while i < tags.len()
        invariant
            i <= tags.len(),
            steps.len() == i + 1,
            widgets@.len() == i,
            steps[0] == old(children)@,
            steps[i as int] == children@,
            forall|k: int|
                0 <= k < i ==> removed(#[trigger] steps[k], steps[k + 1], tags@[k]@, size)
                    && widgets@[k] == found(steps[k], tags@[k]@),
        decreases tags.len() - i,
    {
        let widget = remove_widget(children, tags[i], size);
        widgets.push(widget);
        proof {
            steps = steps.push(children@);
        }
        i += 1;
    }
    assert(removed_each(old(children)@, children@, tags@, widgets@, steps, size));
    widgets
}

/// What is done to the visibility of a widget.
#[derive(Copy, Clone, PartialEq, Eq, Debug, Structural)]
pub enum Visibility {
    Hidden,
    Shown,
    Toggled,
}

impl Visibility {
    /// The attributes `attr` with the visibility changed.
    pub open spec fn of(self, attr: Attr) -> Attr {
        Attr {
            hide: match self {
                Visibility::Hidden => true,
                Visibility::Shown => false,
                Visibility::Toggled => !attr.hide,
            },
            ..attr
        }
    }

    fn apply(self, attr: &mut Attr)
        ensures
            *final(attr) == self.of(*old(attr)),
    {
        match self {
            Visibility::Hidden => {
                attr.hide = true;
            },
            Visibility::Shown => {
                attr.hide = false;
            },
            Visibility::Toggled => {
                attr.hide = !attr.hide;
            },
        }
    }
}

/// Whether `after` is the child `before` of a panel once the visibility of
/// the widgets with the tag `tag` was changed: a child that has the tag is
/// changed itself; in a container that has not, the first widget with the
/// tag that it holds is changed, and the container is fitted to what it
/// holds then; any other child is as it was, with the attributes and the
/// children it had.
pub open spec fn visibility_set(
    before: Widget,
    after: Widget,
    tag: Seq<char>,
    to: Visibility,
    size: TermSize,
) -> bool {
    if before.attr().tag@ == tag {
        after == before.having(to.of(before.attr()))
    } else {
        match before {
            Widget::Container(c) => match found(c.children@, tag) {
                Some(w) => after matches Widget::Container(c2) && replaced(
                    c.children@,
                    c2.children@,
                    tag,
                    w.having(to.of(w.attr())),
                ) && c2.attr == flexed(
                    c.attr,
                    inner_size(c.attr.orientation, c2.children@, size),
                    size,
                ),
                None => after matches Widget::Container(c2) && c2.attr == c.attr && c2.children@
                    == c.children@,
            },
            _ => after == before,
        }
    }
}

fn set_in_child(child: &mut Widget, tag: &str, to: Visibility, size: TermSize)
    ensures
        visibility_set(*old(child), *final(child), tag@, to, size),
{
    if same_text(child.style().tag.as_str(), tag) {
        to.apply(child.style_mut());
    } else {
        match child {
            Widget::Container(c) => {
                let changed = match find_widget(&mut c.children.0, tag) {
                    Some(w) => {
                        to.apply(w.style_mut());
                        true
                    },
                    None => false,
                };
                if changed {
                    fit_panel(&mut c.attr, &c.children.0, size);
                }
            },
            _ => {},
        }
    }
}

/// Hides, shows or toggles the widgets with the tag `tag` among `children`:
/// each child that has the tag, and in each container that has not, the
/// first widget with the tag that it holds; such a container is fitted to
/// what it holds then.
pub fn set_visibility(children: &mut Vec<Widget>, tag: &str, to: Visibility, size: TermSize)
    ensures
        final(children)@.len() == old(children)@.len(),
        forall|i: int|
            0 <= i < old(children)@.len() ==> visibility_set(
                #[trigger] old(children)@[i],
                final(children)@[i],
                tag@,
                to,
                size,
            ),
{
    let mut i: usize = 0;
    while i < children.len()
        invariant
            i <= children.len(),
            children@.len() == old(children)@.len(),
            forall|j: int|
                0 <= j < i ==> visibility_set(
                    #[trigger] old(children)@[j],
                    children@[j],
                    tag@,
                    to,
                    size,
                ),
            forall|j: int| i <= j < children.len() ==> children@[j] == old(children)@[j],
        decreases children.len() - i,
    {
        set_in_child(&mut children[i], tag, to, size);
        i += 1;
    }
}

} // verus!
