use brannon::panel::frame::Frame;
use brannon::panel::search::{find_widget, remove_widget, set_visibility, Visibility};
use brannon::panel::Panel;
use brannon::style::orientation::Orientation;
use brannon::unit::{TermSize, Unit};
use brannon::widget::attr::Attr;
use brannon::widget::container::Container;
use brannon::widget::label::Label;
use brannon::widget::{Widget, WidgetBase};

const SIZE: TermSize = TermSize { cols: 80, rows: 24 };

fn label(text: &str, tag: &str) -> Widget {
    let mut attr = Attr::new();
    attr.size(4usize, 1usize).tag(tag);
    Label::new(text, Some(attr)).wclone()
}

fn container(tag: &str, flex: bool, children: Vec<Widget>) -> Widget {
    let mut attr = Attr::new();
    attr.tag(tag).orientation(Orientation::Vertical);
    attr.flex = flex;
    let mut c = Container::new(Some(attr));
    c.addm(children, SIZE);
    Widget::Container(*c)
}

fn text_of(w: &Widget) -> String {
    match w {
        Widget::Label(l) => l.text.clone(),
        _ => String::new(),
    }
}

fn tree() -> Frame {
    let mut frame = Frame::new(None);
    frame.addm(
        vec![
            label("first", "a"),
            container(
                "box",
                true,
                vec![
                    label("deep", "d"),
                    container("inner", true, vec![label("deeper", "e"), label("twice-inner", "t")]),
                ],
            ),
            label("twice-outer", "t"),
            label("last", "z"),
        ],
        SIZE,
    );
    frame
}

#[test]
fn get_child_searches_depth_first() {
    let mut frame = tree();
    assert_eq!(frame.get_child("a").map(|w| text_of(w)), Some("first".to_string()));
    assert_eq!(frame.get_child("d").map(|w| text_of(w)), Some("deep".to_string()));
    assert_eq!(frame.get_child("e").map(|w| text_of(w)), Some("deeper".to_string()));
    assert_eq!(frame.get_child("z").map(|w| text_of(w)), Some("last".to_string()));
    // What a child holds comes before the next child.
    assert_eq!(frame.get_child("t").map(|w| text_of(w)), Some("twice-inner".to_string()));
    assert!(matches!(frame.get_child("box"), Some(Widget::Container(_))));
    assert!(matches!(frame.get_child("inner"), Some(Widget::Container(_))));
    assert!(frame.get_child("missing").is_none());
    assert!(frame.get_child("").is_none());
}

#[test]
fn get_child_gives_the_widget_itself() {
    let mut frame = tree();
    frame.get_child("e").unwrap().style_mut().hide = true;
    match &frame.children.0[1] {
        Widget::Container(b) => match &b.children.0[1] {
            Widget::Container(inner) => {
                assert!(inner.children.0[0].style().hide);
                assert!(!inner.children.0[1].style().hide);
            }
            _ => panic!(),
        },
        _ => panic!(),
    }
    let before = frame.clone();
    assert!(frame.get_child("missing").is_none());
    assert_eq!(frame, before);
    assert_eq!(
        find_widget(&mut frame.children.0, "z").map(|w| text_of(w)),
        Some("last".to_string())
    );
}

#[test]
fn remove_takes_the_first_match_out() {
    let mut frame = tree();
    assert_eq!(frame.remove("t", SIZE).map(|w| text_of(&w)), Some("twice-inner".to_string()));
    assert_eq!(frame.remove("t", SIZE).map(|w| text_of(&w)), Some("twice-outer".to_string()));
    assert!(frame.remove("t", SIZE).is_none());
    assert_eq!(frame.children.0.len(), 3);
    assert_eq!(frame.remove("a", SIZE).map(|w| text_of(&w)), Some("first".to_string()));
    assert_eq!(frame.children.0.len(), 2);
    assert!(matches!(frame.remove("box", SIZE), Some(Widget::Container(_))));
    assert!(frame.get_child("d").is_none());
    assert_eq!(frame.children.0.len(), 1);
}

#[test]
fn remove_fits_the_panels_on_the_way() {
    let mut frame = tree();
    let sizes = |frame: &Frame| match &frame.children.0[1] {
        Widget::Container(b) => match &b.children.0[1] {
            Widget::Container(inner) => (
                (b.attr.width, b.attr.height),
                (inner.attr.width, inner.attr.height),
            ),
            _ => panic!(),
        },
        _ => panic!(),
    };
    // A label takes 6 by 3; the inner box holds two, the outer one a label
    // and the inner box (8 by 8, with padding 10 by 10).
    assert_eq!(
        sizes(&frame),
        ((Unit::CoR(12), Unit::CoR(15)), (Unit::CoR(8), Unit::CoR(8)))
    );
    assert!(frame.remove("e", SIZE).is_some());
    assert_eq!(
        sizes(&frame),
        ((Unit::CoR(12), Unit::CoR(12)), (Unit::CoR(8), Unit::CoR(5)))
    );
    let unchanged = frame.clone();
    assert!(frame.remove("missing", SIZE).is_none());
    assert_eq!(frame, unchanged);
    assert!(remove_widget(&mut frame.children.0, "d", SIZE).is_some());
    match &frame.children.0[1] {
        Widget::Container(b) => assert_eq!(b.children.0.len(), 1),
        _ => panic!(),
    }
}

#[test]
fn removem_takes_each_tag_in_turn() {
    let mut frame = tree();
    let removed = frame.removem(vec!["t", "missing", "t", "t", "a"], SIZE);
    let texts: Vec<Option<String>> = removed.iter().map(|w| w.as_ref().map(text_of)).collect();
    assert_eq!(
        texts,
        vec![
            Some("twice-inner".to_string()),
            None,
            Some("twice-outer".to_string()),
            None,
            Some("first".to_string())
        ]
    );
    assert_eq!(frame.children.0.len(), 2);
    assert_eq!(frame.removem(vec![], SIZE).len(), 0);
}

#[test]
fn visibility_of_widgets_by_tag() {
    let mut frame = tree();
    let hidden = |frame: &mut Frame, tag: &str| frame.get_child(tag).unwrap().style().hide;
    set_visibility(&mut frame.children.0, "a", Visibility::Hidden, SIZE);
    assert!(hidden(&mut frame, "a"));
    set_visibility(&mut frame.children.0, "a", Visibility::Toggled, SIZE);
    assert!(!hidden(&mut frame, "a"));
    set_visibility(&mut frame.children.0, "a", Visibility::Toggled, SIZE);
    assert!(hidden(&mut frame, "a"));
    set_visibility(&mut frame.children.0, "a", Visibility::Shown, SIZE);
    assert!(!hidden(&mut frame, "a"));
    // Both widgets with the tag are reached: one is a child, the other the
    // first one that a container holds.
    set_visibility(&mut frame.children.0, "t", Visibility::Hidden, SIZE);
    assert!(frame.children.0[2].style().hide);
    assert!(hidden(&mut frame, "t"));
    assert_eq!(
        frame.get_child("t").map(|w| match w {
            Widget::Label(l) => l.text.clone(),
            _ => String::new(),
        }),
        Some("twice-inner".to_string())
    );
    // The container that holds the hidden widget fits what is left to see:
    // the inner box counts as before, for it is the box inside it that
    // holds the widget; so the outer one stays 12 by 15.
    match &frame.children.0[1] {
        Widget::Container(b) => {
            assert_eq!((b.attr.width, b.attr.height), (Unit::CoR(12), Unit::CoR(15)));
        }
        _ => panic!(),
    }
    set_visibility(&mut frame.children.0, "d", Visibility::Hidden, SIZE);
    match &frame.children.0[1] {
        Widget::Container(b) => {
            assert!(b.children.0[0].style().hide);
            assert_eq!((b.attr.width, b.attr.height), (Unit::CoR(12), Unit::CoR(12)));
        }
        _ => panic!(),
    }
    let before = frame.clone();
    set_visibility(&mut frame.children.0, "missing", Visibility::Toggled, SIZE);
    assert_eq!(frame, before);
}
