use brannon::panel::frame::Frame;
use brannon::panel::layout::{content_size, fit_panel};
use brannon::panel::Panel;
use brannon::style::align::{AlignX, AlignY};
use brannon::style::color::ColorBG;
use brannon::style::orientation::Orientation;
use brannon::unit::{Point, TermSize, Unit};
use brannon::widget::attr::Attr;
use brannon::widget::container::Container;
use brannon::widget::label::Label;
use brannon::widget::{Widget, WidgetBase};

const SIZE: TermSize = TermSize { cols: 80, rows: 24 };

fn label(text: &str, tag: &str, w: usize, h: usize) -> Widget {
    let mut attr = Attr::new();
    attr.size(w, h).tag(tag).hide_border();
    Label::new(text, Some(attr)).wclone()
}

fn hidden(w: usize, h: usize) -> Widget {
    let mut attr = Attr::new();
    attr.size(w, h);
    attr.hide = true;
    Label::new("", Some(attr)).wclone()
}

fn panel(orientation: Orientation) -> Container {
    let mut attr = Attr::new();
    attr.orientation(orientation).hide_border();
    *Container::new(Some(attr))
}

#[test]
fn bounds_of_an_empty_panel() {
    let c = panel(Orientation::Horizontal);
    assert_eq!(c.bounds(SIZE), (Unit::CoR(0), Unit::CoR(0)));
    let c = panel(Orientation::Vertical);
    assert_eq!(c.bounds(SIZE), (Unit::CoR(0), Unit::CoR(0)));
    assert_eq!(Frame::new(None).bounds(SIZE), (Unit::CoR(0), Unit::CoR(0)));
}

#[test]
fn bounds_sum_along_and_take_the_largest_across() {
    let mut c = panel(Orientation::Horizontal);
    c.add(label("a", "a", 10, 5), SIZE);
    c.add(label("b", "b", 4, 9), SIZE);
    // 1 + 10 + 1 and 1 + 4 + 1 wide, 1 + 5 + 1 and 1 + 9 + 1 high
    assert_eq!(c.bounds(SIZE), (Unit::CoR(18), Unit::CoR(11)));
    c.attr.orientation = Orientation::Vertical;
    assert_eq!(c.bounds(SIZE), (Unit::CoR(12), Unit::CoR(18)));
    let (attr, children) = c.split();
    assert_eq!(content_size(attr.orientation, children, SIZE), (12, 18));
}

#[test]
fn bounds_resolve_percentages() {
    let mut c = panel(Orientation::Horizontal);
    let mut attr = Attr::new();
    attr.width(Unit::PctH(50)).height(Unit::PctV(25)).pad(0usize);
    c.add(Label::new("", Some(attr)).wclone(), SIZE);
    assert_eq!(c.bounds(SIZE), (Unit::CoR(40), Unit::CoR(6)));
    assert_eq!(
        c.bounds(TermSize { cols: 100, rows: 10 }),
        (Unit::CoR(50), Unit::CoR(2))
    );
}

#[test]
fn hidden_children_count_for_nothing() {
    let mut c = panel(Orientation::Horizontal);
    c.add(label("a", "a", 10, 5), SIZE);
    let before = c.bounds(SIZE);
    c.add(hidden(1000, 2000), SIZE);
    assert_eq!(c.bounds(SIZE), before);
    c.children.0.insert(0, hidden(usize::MAX, usize::MAX));
    assert_eq!(c.bounds(SIZE), before);
    c.attr.orientation = Orientation::Vertical;
    assert_eq!(c.bounds(SIZE), (Unit::CoR(12), Unit::CoR(7)));
    let mut only_hidden = panel(Orientation::Vertical);
    only_hidden.add(hidden(3, 4), SIZE);
    assert_eq!(only_hidden.bounds(SIZE), (Unit::CoR(0), Unit::CoR(0)));
}

#[test]
fn adding_a_child_never_shrinks_the_content() {
    for orientation in [Orientation::Horizontal, Orientation::Vertical] {
        let mut c = panel(orientation);
        let mut last = (0, 0);
        for (w, h) in [(3, 9), (0, 0), (20, 1), (1, 30), (5, 5)] {
            c.add(label("", "", w, h), SIZE);
            let (x, y) = c.bounds(SIZE);
            let now = (x.calc(SIZE), y.calc(SIZE));
            assert!(now.0 >= last.0 && now.1 >= last.1);
            last = now;
        }
        match orientation {
            Orientation::Horizontal => assert_eq!(last, (39, 32)),
            Orientation::Vertical => assert_eq!(last, (22, 55)),
        }
    }
}

#[test]
fn bounds_stop_at_the_largest_number() {
    let mut c = panel(Orientation::Horizontal);
    c.children.0.push(label("", "", usize::MAX, 1));
    c.children.0.push(label("", "", 10, 1));
    assert_eq!(c.bounds(SIZE), (Unit::CoR(usize::MAX), Unit::CoR(3)));
}

#[test]
fn flex_grows_a_panel_to_its_content() {
    let mut c = panel(Orientation::Vertical);
    assert_eq!((c.attr.width, c.attr.height), (Unit::CoR(0), Unit::CoR(0)));
    c.add(label("a", "a", 10, 5), SIZE);
    assert_eq!((c.attr.width, c.attr.height), (Unit::CoR(14), Unit::CoR(9)));
    c.add(label("b", "b", 4, 9), SIZE);
    assert_eq!((c.attr.width, c.attr.height), (Unit::CoR(14), Unit::CoR(20)));
    // A panel that does not flex keeps what it has grown to.
    assert!(c.remove("b", SIZE).is_some());
    assert_eq!((c.attr.width, c.attr.height), (Unit::CoR(14), Unit::CoR(20)));
    // One that is a cell short of the border allowance grows too.
    c.attr.width = Unit::CoR(13);
    c.flex(SIZE);
    assert_eq!(c.attr.width, Unit::CoR(14));
}

#[test]
fn flex_shrinks_a_flexing_panel() {
    let mut c = panel(Orientation::Vertical);
    c.attr.flex = true;
    c.attr.width = Unit::CoR(50);
    c.attr.height = Unit::PctV(100);
    c.addm(vec![label("a", "a", 10, 5), label("b", "b", 4, 9)], SIZE);
    assert_eq!((c.attr.width, c.attr.height), (Unit::CoR(14), Unit::CoR(20)));
    assert!(c.remove("b", SIZE).is_some());
    assert_eq!((c.attr.width, c.attr.height), (Unit::CoR(14), Unit::CoR(9)));
    assert!(c.remove("a", SIZE).is_some());
    assert_eq!((c.attr.width, c.attr.height), (Unit::CoR(2), Unit::CoR(2)));
}

#[test]
fn flex_keeps_a_size_that_fits() {
    let mut c = panel(Orientation::Vertical);
    c.attr.width = Unit::PctH(50);
    c.attr.height = Unit::PctVPO(50, 3);
    c.add(label("a", "a", 10, 5), SIZE);
    assert_eq!((c.attr.width, c.attr.height), (Unit::PctH(50), Unit::PctVPO(50, 3)));
    // On a smaller terminal the same sizes no longer fit.
    c.flex(TermSize { cols: 20, rows: 10 });
    assert_eq!((c.attr.width, c.attr.height), (Unit::CoR(14), Unit::CoR(9)));
}

#[test]
fn flex_twice_is_flex_once() {
    for flex in [false, true] {
        for (w, h) in [(0, 0), (13, 8), (14, 9), (15, 10), (100, 100)] {
            let mut c = panel(Orientation::Horizontal);
            c.attr.flex = flex;
            c.children.0.push(label("a", "a", 10, 5));
            c.attr.width = Unit::CoR(w);
            c.attr.height = Unit::CoR(h);
            c.flex(SIZE);
            let once = c.attr.clone();
            c.flex(SIZE);
            assert_eq!(c.attr, once);
            let (attr, children) = c.split_mut();
            fit_panel(attr, children, SIZE);
            assert_eq!(c.attr, once);
            assert!(once.width.calc(SIZE) >= 14 && once.height.calc(SIZE) >= 9);
            if flex {
                assert_eq!((once.width, once.height), (Unit::CoR(14), Unit::CoR(9)));
            }
        }
    }
}

fn drawn_label(at: &str, text: &str) -> String {
    format!("\x1b[37m\x1b[1m\x1b[22m\x1b[37m{}{}\x1b[0m", at, text)
}

#[test]
fn render_places_one_child() {
    let mut c = panel(Orientation::Vertical);
    c.add(label("hi", "l", 6, 3), SIZE);
    let out = c.render_children(Point::cor(3, 4), SIZE);
    assert_eq!(out, "\x1b[37m\x1b[1m\x1b[22m\x1b[37m\x1b[6;5Hhi\x1b[0m");
}

#[test]
fn render_stacks_in_a_row() {
    for (align, rows) in [
        (AlignY::Top, (3, 3)),
        (AlignY::Center, (5, 3)),
        (AlignY::Bottom, (6, 2)),
    ] {
        let mut c = panel(Orientation::Horizontal);
        c.attr.aligny = align;
        c.addm(vec![label("a", "a", 6, 3), hidden(50, 50), label("b", "b", 8, 7)], SIZE);
        let out = c.render_children(Point::cor(1, 1), SIZE);
        let expected = drawn_label(&format!("\x1b[{};3H", rows.0), "a")
            + &drawn_label(&format!("\x1b[{};11H", rows.1), "b");
        assert_eq!(out, expected);
    }
}

#[test]
fn render_stacks_in_a_column() {
    for (align, cols) in [
        (AlignX::Left, (3, 3)),
        (AlignX::Center, (4, 3)),
        (AlignX::Right, (4, 2)),
    ] {
        let mut c = panel(Orientation::Vertical);
        c.attr.alignx = align;
        c.addm(vec![label("a", "a", 6, 3), label("b", "b", 8, 7)], SIZE);
        // The content is 10 wide: 1 + 8 + 1.
        let out = c.render_children(Point::cor(1, 1), SIZE);
        let expected = drawn_label(&format!("\x1b[3;{}H", cols.0), "a")
            + &drawn_label(&format!("\x1b[8;{}H", cols.1), "b");
        assert_eq!(out, expected);
    }
}

#[test]
fn render_marks_children_with_another_background() {
    let mut c = panel(Orientation::Vertical);
    let mut attr = Attr::new();
    attr.size(3usize, 2usize).hide_border().pad(0usize);
    attr.fill = ColorBG::Red;
    c.add(Label::new("", Some(attr)).wclone(), SIZE);
    c.add(label("", "same", 3, 2), SIZE);
    c.add(hidden(1, 1), SIZE);
    assert!(c.children.0.iter().all(|w| !w.style().should_fill));
    let out = c.render_children(Point::cor(2, 2), SIZE);
    assert_eq!(
        out,
        "\x1b[41m\x1b[2;2H   \x1b[3;2H   \x1b[37m\x1b[1m\x1b[41m\x1b[22m\x1b[37m\x1b[0m".to_string()
            + "\x1b[37m\x1b[1m\x1b[22m\x1b[37m\x1b[0m"
    );
    assert!(c.children.0[0].style().should_fill);
    assert!(!c.children.0[1].style().should_fill);
    assert!(!c.children.0[2].style().should_fill);
    // Drawing changes nothing else.
    let again = c.render_children(Point::cor(2, 2), SIZE);
    assert_eq!(again, out);
}

#[test]
fn render_draws_what_a_container_holds() {
    let mut inner = panel(Orientation::Horizontal);
    inner.attr.tag("inner");
    inner.add(label("x", "x", 5, 3), SIZE);
    inner.add(label("y", "y", 5, 3), SIZE);
    let mut outer = panel(Orientation::Vertical);
    outer.add(label("t", "t", 5, 3), SIZE);
    outer.add(Widget::Container(inner), SIZE);
    let out = outer.render_children(Point::cor(1, 1), SIZE);
    // The container is 16 by 7 and is drawn at (2, 7); its children start a
    // cell further in, at (3, 8).
    let expected = drawn_label("\x1b[3;3H", "t")
        + "\x1b[37m\x1b[1m"
        + &drawn_label("\x1b[10;5H", "x")
        + &drawn_label("\x1b[10;12H", "y")
        + "\x1b[0m";
    assert_eq!(out, expected);
    let mut w = Widget::Container(outer);
    assert_eq!(
        w.render(Point::cor(0, 0), SIZE),
        w.as_panel().unwrap().render_children(Point::cor(1, 1), SIZE)
    );
}

#[test]
fn frame_renders_from_its_anchor() {
    let mut attr = Attr::new();
    attr.hide_border();
    let mut frame = Frame::new(Some(attr));
    frame.add(label("a", "a", 6, 3), SIZE);
    assert_eq!(frame.render(SIZE), drawn_label("\x1b[4;4H", "a"));
    frame.attr.center();
    // 80 / 2 - 8 / 2 = 36 and 24 / 2 - 5 / 2 = 10
    assert_eq!(frame.render(SIZE), drawn_label("\x1b[12;38H", "a"));
    frame.attr.align(AlignX::Right, AlignY::Bottom);
    // 80 - 8 = 72 and 24 - 5 = 19
    assert_eq!(frame.render(SIZE), drawn_label("\x1b[21;73H", "a"));
    assert_eq!(
        frame.render(TermSize { cols: 4, rows: 2 }),
        drawn_label("\x1b[2;1H", "a")
    );
}

#[test]
fn children_by_position() {
    let mut c = panel(Orientation::Vertical);
    c.addm(vec![label("a", "a", 1, 1), label("b", "b", 1, 1)], SIZE);
    assert_eq!(c.child_at(1).map(|w| w.style().tag.clone()), Some("b".to_string()));
    assert!(c.child_at(2).is_none());
    c.child_at(0).unwrap().style_mut().hide = true;
    assert!(c.children.0[0].style().hide);
    assert_eq!(c.children().len(), 2);
    assert_eq!(c.attr().orientation, Orientation::Vertical);
}
