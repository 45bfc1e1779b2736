use brannon::unit::{Point, TermSize, Unit};

#[test]
fn point_constructors() {
    let p = Point::new(3usize, 4usize);
    assert_eq!(p.x, Unit::CoR(3));
    assert_eq!(p.y, Unit::CoR(4));

    let p2: Point = (p, 2usize, 3usize).into();
    assert_eq!(p2.x, Unit::CoR(5));
    assert_eq!(p2.y, Unit::CoR(7));

    let pc = Point::cor(1, 2);
    assert_eq!(pc.x, Unit::CoR(1));
    assert_eq!(pc.y, Unit::CoR(2));

    let pp = Point::pct(10, 20);
    assert_eq!(pp.x, Unit::PctH(10));
    assert_eq!(pp.y, Unit::PctV(20));
}

#[test]
fn unit_from_usize() {
    let u: Unit = 7usize.into();
    assert_eq!(u, Unit::CoR(7));
}

#[test]
fn unit_addition_basic() {
    assert_eq!(Unit::CoR(5) + Unit::CoR(3), Unit::CoR(8));
    assert_eq!(Unit::CoR(5) + Unit::PctH(10), Unit::PctHPO(10, 5));
    assert_eq!(Unit::PctH(10) + Unit::CoR(5), Unit::PctHPO(10, 5));
    assert_eq!(Unit::PctH(10) + Unit::PctH(5), Unit::PctH(15));
    assert_eq!(Unit::PctH(10) + Unit::PctV(5), Unit::PctH(15));
    assert_eq!(Unit::PctV(20) + Unit::CoR(4), Unit::PctVPO(20, 4));
    assert_eq!(Unit::PctV(20) + Unit::PctV(5), Unit::PctV(25));
}

#[test]
fn unit_addition_with_offsets() {
    assert_eq!(Unit::PctHPO(10, 2) + Unit::CoR(3), Unit::PctHPO(10, 5));
    assert_eq!(Unit::PctHPO(10, 2) + Unit::PctH(5), Unit::PctHPO(15, 2));
    assert_eq!(
        Unit::PctHPO(10, 2) + Unit::PctHPO(5, 3),
        Unit::PctHPO(15, 5)
    );
    assert_eq!(
        Unit::PctVPO(7, -2) + Unit::PctVPO(3, 5),
        Unit::PctVPO(10, 3)
    );
}

#[test]
fn unit_subtraction_basic() {
    assert_eq!(Unit::CoR(8) - Unit::CoR(3), Unit::CoR(5));
    assert_eq!(Unit::CoR(10) - Unit::PctH(5), Unit::PctHPO(5, -10));
    assert_eq!(Unit::PctH(12) - Unit::CoR(2), Unit::PctHPO(12, -2));
    assert_eq!(Unit::PctH(15) - Unit::PctH(5), Unit::PctH(10));
    assert_eq!(Unit::PctV(20) - Unit::PctV(5), Unit::PctV(15));
}

#[test]
fn unit_subtraction_with_offsets() {
    assert_eq!(Unit::PctHPO(10, 5) - Unit::CoR(3), Unit::PctHPO(10, 2));
    assert_eq!(Unit::PctHPO(10, 5) - Unit::PctH(4), Unit::PctHPO(6, 5));
    assert_eq!(Unit::PctHPO(10, 5) - Unit::PctHPO(3, 2), Unit::PctHPO(7, 3));
    assert_eq!(
        Unit::PctVPO(9, -3) - Unit::PctVPO(4, 5),
        Unit::PctVPO(5, -8)
    );
}

#[test]
fn unit_add_assign_and_sub_assign() {
    let mut u = Unit::CoR(5);
    u += Unit::CoR(7);
    assert_eq!(u, Unit::CoR(12));
    u -= Unit::CoR(2);
    assert_eq!(u, Unit::CoR(10));
    u += Unit::PctH(10); // becomes offset pct
    assert_eq!(u, Unit::PctHPO(10, 10));
}

#[test]
fn calc_cor_does_not_depend_on_term() {
    let u = Unit::CoR(42);
    assert_eq!(u.calc(TermSize { cols: 80, rows: 24 }), 42);
    assert_eq!(u.calc(TermSize { cols: 0, rows: 0 }), 42);
}

#[test]
fn calc_percent_of_terminal() {
    let size = TermSize { cols: 80, rows: 24 };
    assert_eq!(Unit::PctH(50).calc(size), 40);
    assert_eq!(Unit::PctV(50).calc(size), 12);
    assert_eq!(Unit::PctH(33).calc(size), 26);
    assert_eq!(Unit::PctV(10).calc(size), 2);
    assert_eq!(Unit::PctH(0).calc(size), 0);
    assert_eq!(Unit::PctH(100).calc(size), 80);
}

#[test]
fn calc_percent_with_offset() {
    let size = TermSize { cols: 80, rows: 24 };
    assert_eq!(Unit::PctHPO(50, 3).calc(size), 43);
    assert_eq!(Unit::PctHPO(50, -3).calc(size), 37);
    assert_eq!(Unit::PctVPO(50, -20).calc(size), 0);
    assert_eq!(Unit::PctVPO(100, 1).calc(size), 25);
}

#[test]
fn calc_holds_at_the_bounds() {
    let size = TermSize { cols: usize::MAX, rows: usize::MAX };
    assert_eq!(Unit::PctH(200).calc(size), usize::MAX);
    assert_eq!(Unit::PctHPO(100, 1).calc(size), 32768);
    assert_eq!(Unit::PctVPO(100, -1).calc(size), 32766);
}

#[test]
fn arithmetic_stops_at_the_bounds() {
    assert_eq!(Unit::CoR(usize::MAX) + Unit::CoR(1), Unit::CoR(usize::MAX));
    assert_eq!(Unit::CoR(3) - Unit::CoR(8), Unit::CoR(0));
    assert_eq!(Unit::PctH(3) - Unit::PctH(8), Unit::PctH(0));
    assert_eq!(Unit::PctH(1) + Unit::CoR(40000), Unit::PctHPO(1, i16::MAX));
    assert_eq!(Unit::PctH(1) - Unit::CoR(40000), Unit::PctHPO(1, i16::MIN));
    assert_eq!(
        Unit::PctHPO(1, i16::MAX) + Unit::PctHPO(1, 5),
        Unit::PctHPO(2, i16::MAX)
    );
    assert_eq!(Unit::CoR(40000) + Unit::PctHPO(1, -10000), Unit::PctHPO(1, 30000));
}

#[test]
fn left_axis_wins() {
    assert_eq!(Unit::PctV(10) + Unit::PctH(5), Unit::PctV(15));
    assert_eq!(Unit::PctVPO(10, 1) + Unit::PctHPO(5, 2), Unit::PctVPO(15, 3));
    assert_eq!(Unit::PctH(10) + Unit::PctVPO(5, 2), Unit::PctHPO(15, 2));
    assert_eq!(Unit::CoR(4) + Unit::PctVPO(5, 2), Unit::PctVPO(5, 6));
    assert_eq!(Unit::CoR(4) - Unit::PctVPO(5, 2), Unit::PctVPO(5, 2));
    assert_eq!(Unit::PctH(9) - Unit::PctVPO(5, 2), Unit::PctHPO(4, 2));
}

#[test]
fn point_conversions() {
    let origin: Point = ().into();
    assert_eq!(origin, Point::cor(0, 0));
    let both: Point = 4usize.into();
    assert_eq!(both, Point::cor(4, 4));
    let pair: Point = (10usize, 20usize).into();
    assert_eq!(pair, Point::cor(10, 20));
    assert_eq!(
        Point::pct(10, 20).offset(Unit::CoR(1), Unit::CoR(2)),
        Point { x: Unit::PctHPO(10, 1), y: Unit::PctVPO(20, 2) }
    );
}
