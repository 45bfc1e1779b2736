use brannon::panel::Panel;
use brannon::style::color::ColorBG;
use brannon::unit::Unit;
use brannon::widget::attr::Attr;
use brannon::widget::container::Container;
use brannon::widget::label::Label;
use brannon::widget::progress_bar::ProgressBar;
use brannon::widget::{Widget, WidgetBase, WidgetList};

#[test]
fn from() {
    let l1 = Label::new("", None);
    let l2 = Label::new("", None);
    let c1 = Container::new(None);

    let wl_with_1 = WidgetList(vec![c1.wclone()]);

    assert!(wl_with_1 == c1.wclone().into());

    let wl = WidgetList(vec![l1.wclone(), l2.wclone(), c1.wclone()]);

    // assert!(wl == vec![l1.clone(), l2.clone(), c1.wclone()].into());
    assert!(wl == [l1.wclone(), l2.wclone(), c1.wclone(),].into());
}

#[test]
fn widget_copies_are_deep() {
    let mut attr = Attr::new();
    attr.tag("inner").title("T").size(4usize, 5usize);
    let mut c = Container::new(Some(attr.clone()));
    c.children.0.push(Label::new("text", Some(attr.clone())).wclone());
    c.children.0.push(Widget::ProgressBar(*ProgressBar::new(ColorBG::Red, None)));
    let mut outer = Container::new(None);
    outer.children.0.push(c.wclone());
    let copy = outer.wclone();
    assert_eq!(copy, Widget::Container(*outer.clone()));
    match &copy {
        Widget::Container(o) => match &o.children.0[0] {
            Widget::Container(inner) => {
                assert_eq!(inner.attr, attr);
                assert_eq!(inner.children.0.len(), 2);
                match &inner.children.0[0] {
                    Widget::Label(l) => assert_eq!(l.text, "text"),
                    _ => panic!(),
                }
            }
            _ => panic!(),
        },
        _ => panic!(),
    }
    let list: WidgetList = vec![copy.clone()].into();
    assert_eq!(list.clone(), list);
    assert_eq!(WidgetList::default(), WidgetList(vec![]));
}

#[test]
fn widget_attributes() {
    let mut w = Label::new("x", None).wclone();
    assert_eq!(*w.style(), Attr::new());
    w.style_mut().hide = true;
    assert!(w.style().hide);
    let mut attr = Attr::new();
    attr.tag("new");
    w.set_style(attr.clone());
    assert_eq!(*w.style(), attr);
    assert!(w.as_panel().is_none());
    let mut c = Container::new(None).wclone();
    assert!(c.as_panel().is_some());
    c.as_panel().unwrap().children.0.push(w.clone());
    match &c {
        Widget::Container(inner) => assert_eq!(inner.children.0, vec![w]),
        _ => panic!(),
    }
    let mut label = Label::new("y", None);
    label.style_mut().width = Unit::CoR(3);
    assert_eq!(label.style().width, Unit::CoR(3));
    let mut bar = ProgressBar::new(ColorBG::Blue, None);
    bar.style_mut().width = Unit::CoR(4);
    assert_eq!(bar.style().width, Unit::CoR(4));
    let mut plain = Container::new(None);
    WidgetBase::style_mut(&mut *plain).width = Unit::CoR(5);
    assert_eq!(Panel::attr(&*plain).width, Unit::CoR(5));
}

#[test]
fn progress_bar_steps() {
    let mut bar = ProgressBar::new(ColorBG::Green, None);
    assert_eq!(bar.progress, 0);
    assert_eq!(bar.attr.height, Unit::CoR(3));
    bar.decrement();
    assert_eq!(bar.progress, 0);
    bar.increment();
    assert_eq!(bar.progress, 1);
    bar.progress(250);
    assert_eq!(bar.progress, 100);
    bar.increment();
    assert_eq!(bar.progress, 100);
    bar.progress(40);
    bar.inc_progress(25);
    assert_eq!(bar.progress, 65);
    bar.inc_progress(usize::MAX);
    assert_eq!(bar.progress, 100);
    bar.dec_progress(30);
    assert_eq!(bar.progress, 70);
    bar.dec_progress(71);
    assert_eq!(bar.progress, 0);
    bar.progress(99);
    bar.decrement();
    assert_eq!(bar.progress, 98);
    bar.reset();
    assert_eq!(bar.progress, 0);
    bar.bar_color(ColorBG::ID(9));
    assert_eq!(bar.bar_color, ColorBG::ID(9));
    let mut attr = Attr::new();
    attr.size(20usize, 9usize);
    let sized = ProgressBar::new(ColorBG::Red, Some(attr));
    assert_eq!(sized.attr.width, Unit::CoR(20));
    assert_eq!(sized.attr.height, Unit::CoR(3));
}
