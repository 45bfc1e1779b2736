//! Dimensions on the character grid: absolute cell counts and percentages of
//! the terminal's size, with their arithmetic.

use std::ops::{Add, AddAssign, Sub, SubAssign};
use vstd::prelude::*;
use vstd::std_specs::convert::{FromSpecImpl, IntoSpec};
use vstd::std_specs::ops::{AddSpecImpl, SubSpecImpl};

verus! {

/// The terminal's size in cells, taken once and handed to every function
/// that resolves a percentage.
#[derive(Copy, Clone, PartialEq, Eq, Debug, Structural)]
pub struct TermSize {
    pub cols: usize,
    pub rows: usize,
}

/// The screen axis a percentage refers to.
#[derive(Copy, Clone, PartialEq, Eq, Debug, Structural)]
pub enum Axis {
    Horizontal,
    Vertical,
}

#[derive(Copy, Clone, PartialEq, Eq, Debug, Structural)]
pub enum Unit {
    /// Columns or rows (start at 1).
    CoR(usize),
    /// Percent of the terminal's width.
    PctH(usize),
    /// Percent of the terminal's height.
    PctV(usize),
    /// Percent of the terminal's width, plus an offset in cells.
    PctHPO(usize, i16),
    /// Percent of the terminal's height, plus an offset in cells.
    PctVPO(usize, i16),
}

#[derive(Copy, Clone, PartialEq, Eq, Debug, Structural)]
pub struct Point {
    pub x: Unit,
    pub y: Unit,
}

/// `v` brought into the range of `usize`.
pub open spec fn clamp_usize(v: int) -> usize {
    if v < 0 {
        0usize
    } else if v > usize::MAX {
        usize::MAX
    } else {
        v as usize
    }
}

/// `v` brought into the range of `i16`.
pub open spec fn clamp_i16(v: int) -> i16 {
    if v < i16::MIN {
        i16::MIN
    } else if v > i16::MAX {
        i16::MAX
    } else {
        v as i16
    }
}

/// `percent` hundredths of `extent`, rounded down.
pub open spec fn percent_of(percent: int, extent: int) -> int {
    percent * extent / 100
}

fn offset_of(v: i128) -> (r: i16)
    ensures
        r == clamp_i16(v as int),
{
    if v < -32768 {
        -32768
    } else if v > 32767 {
        32767
    } else {
        v as i16
    }
}

fn offset_sum(a: i128, b: i128) -> (r: i16)
    requires
        -0x1_0000_0000_0000_0000 <= a <= 0x1_0000_0000_0000_0000,
        -0x1_0000_0000_0000_0000 <= b <= 0x1_0000_0000_0000_0000,
    ensures
        r == clamp_i16(a + b),
{
    offset_of(a + b)
}

pub(crate) fn count_sum(a: usize, b: usize) -> (r: usize)
    ensures
        r == clamp_usize(a + b),
{
    if a > usize::MAX - b {
        usize::MAX
    } else {
        a + b
    }
}

pub(crate) fn count_diff(a: usize, b: usize) -> (r: usize)
    ensures
        r == clamp_usize(a - b),
{
    if a < b {
        0
    } else {
        a - b
    }
}

pub(crate) fn scaled(percent: usize, extent: usize) -> (r: usize)
    ensures
        r == clamp_usize(percent_of(percent as int, extent as int)),
{
    assert(percent * extent <= 0xffff_ffff_ffff_ffff * 0xffff_ffff_ffff_ffff) by (nonlinear_arith)
        requires
            0 <= percent <= 0xffff_ffff_ffff_ffff,
            0 <= extent <= 0xffff_ffff_ffff_ffff,
    ;
    let wide: u128 = (percent as u128) * (extent as u128) / 100;
    if wide > usize::MAX as u128 {
        usize::MAX
    } else {
        wide as usize
    }
}

impl Unit {
    /// The axis of a percentage; an absolute count has none.
    pub open spec fn axis(self) -> Option<Axis> {
        match self {
            Unit::CoR(_) => None,
            Unit::PctH(_) | Unit::PctHPO(_, _) => Some(Axis::Horizontal),
            Unit::PctV(_) | Unit::PctVPO(_, _) => Some(Axis::Vertical),
        }
    }

    /// The percentage; 0 for an absolute count.
    pub open spec fn percent(self) -> int {
        match self {
            Unit::CoR(_) => 0,
            Unit::PctH(n) | Unit::PctV(n) | Unit::PctHPO(n, _) | Unit::PctVPO(n, _) => n as int,
        }
    }

    /// The part counted in cells: the absolute count, or the offset of a
    /// percentage (0 where it has none).
    pub open spec fn cells(self) -> int {
        match self {
            Unit::CoR(n) => n as int,
            Unit::PctH(_) | Unit::PctV(_) => 0,
            Unit::PctHPO(_, o) | Unit::PctVPO(_, o) => o as int,
        }
    }

    /// Whether the value is a bare percentage, with no part counted in cells.
    pub open spec fn is_bare_percent(self) -> bool {
        self is PctH || self is PctV
    }

    /// The value on `axis` with the given percentage and, unless `bare`, the
    /// given offset. Each number is brought into the range of its field.
    pub open spec fn on_axis(axis: Axis, percent: int, cells: int, bare: bool) -> Unit {
        match axis {
            Axis::Horizontal => if bare {
                Unit::PctH(clamp_usize(percent))
            } else {
                Unit::PctHPO(clamp_usize(percent), clamp_i16(cells))
            },
            Axis::Vertical => if bare {
                Unit::PctV(clamp_usize(percent))
            } else {
                Unit::PctVPO(clamp_usize(percent), clamp_i16(cells))
            },
        }
    }

    /// The sum. Two absolute counts add up. Otherwise the result is a
    /// percentage on the axis of the left operand (of the right one where the
    /// left is absolute); percentages add up, and so do the parts counted in
    /// cells. A number that leaves the range of its field stops at the bound.
    pub open spec fn plus(self, rhs: Unit) -> Unit {
        match (self.axis(), rhs.axis()) {
            (None, None) => Unit::CoR(clamp_usize(self.cells() + rhs.cells())),
            (Some(axis), _) | (None, Some(axis)) => Unit::on_axis(
                axis,
                self.percent() + rhs.percent(),
                self.cells() + rhs.cells(),
                self.is_bare_percent() && rhs.is_bare_percent(),
            ),
        }
    }

    /// The difference. Two absolute counts, and two percentages, are
    /// subtracted; the axis is that of the left operand (of the right one
    /// where the left is absolute). An absolute count taken from a percentage
    /// lowers its offset. A percentage taken from an absolute count `n` keeps
    /// its own percentage, with the offset `-n` where it had none and
    /// `n - offset` where it had one. The offset of a right operand is
    /// subtracted only from a left operand that has an offset of its own, and
    /// is otherwise carried over. A number that leaves the range of its field
    /// stops at the bound.
    pub open spec fn minus(self, rhs: Unit) -> Unit {
        match (self.axis(), rhs.axis()) {
            (None, None) => Unit::CoR(clamp_usize(self.cells() - rhs.cells())),
            (None, Some(axis)) => Unit::on_axis(
                axis,
                rhs.percent(),
                if rhs.is_bare_percent() {
                    -self.cells()
                } else {
                    self.cells() - rhs.cells()
                },
                false,
            ),
            (Some(axis), None) => Unit::on_axis(
                axis,
                self.percent(),
                self.cells() - rhs.cells(),
                false,
            ),
            (Some(axis), Some(_)) => Unit::on_axis(
                axis,
                self.percent() - rhs.percent(),
                if self.is_bare_percent() {
                    rhs.cells()
                } else {
                    self.cells() - rhs.cells()
                },
                self.is_bare_percent() && rhs.is_bare_percent(),
            ),
        }
    }

    /// The number of cells the value stands for on a terminal of size `size`:
    /// the count itself, or the percentage of the terminal's width or height,
    /// rounded down. A percentage with an offset is first held to at most
    /// `i16::MAX` cells; then the offset is added, and a negative sum gives 0.
    pub open spec fn resolve(self, size: TermSize) -> usize {
        match self {
            Unit::CoR(n) => n,
            Unit::PctH(n) => clamp_usize(percent_of(n as int, size.cols as int)),
            Unit::PctV(n) => clamp_usize(percent_of(n as int, size.rows as int)),
            Unit::PctHPO(n, o) => clamp_usize(
                clamp_i16(percent_of(n as int, size.cols as int)) + o,
            ),
            Unit::PctVPO(n, o) => clamp_usize(
                clamp_i16(percent_of(n as int, size.rows as int)) + o,
            ),
        }
    }

    pub fn calc(&self, size: TermSize) -> (cells: usize)
        ensures
            cells == self.resolve(size),
    {
        match *self {
            Unit::CoR(n) => n,
            Unit::PctH(n) => scaled(n, size.cols),
            Unit::PctV(n) => scaled(n, size.rows),
            Unit::PctHPO(n, o) => with_offset(scaled(n, size.cols), o),
            Unit::PctVPO(n, o) => with_offset(scaled(n, size.rows), o),
        }
    }
}

fn with_offset(cells: usize, offset: i16) -> (r: usize)
    ensures
        r == clamp_usize(clamp_i16(cells as int) + offset),
{
    let held: i32 = if cells > 32767 {
        32767
    } else {
        cells as i32
    };
    let sum: i32 = held + offset as i32;
    if sum < 0 {
        0
    } else {
        sum as usize
    }
}

impl FromSpecImpl<usize> for Unit {
    open spec fn obeys_from_spec() -> bool {
        true
    }

    open spec fn from_spec(value: usize) -> Unit {
        Unit::CoR(value)
    }
}

impl From<usize> for Unit {
    fn from(value: usize) -> (unit: Unit) {
        Unit::CoR(value)
    }
}

impl AddSpecImpl for Unit {
    open spec fn obeys_add_spec() -> bool {
        true
    }

    open spec fn add_req(self, rhs: Unit) -> bool {
        true
    }

    open spec fn add_spec(self, rhs: Unit) -> Unit {
        self.plus(rhs)
    }
}

// Adding unlike axes is not recommended. The axis of the left operand takes
// precedence: H + V = H.
impl Add for Unit {
    type Output = Unit;

    fn add(self, rhs: Unit) -> (sum: Unit) {
        match self {
            Unit::CoR(n) => match rhs {
                Unit::CoR(n2) => Unit::CoR(count_sum(n, n2)),
                Unit::PctH(n2) => Unit::PctHPO(n2, offset_of(n as i128)),
                Unit::PctV(n2) => Unit::PctVPO(n2, offset_of(n as i128)),
                Unit::PctHPO(n2, o2) => Unit::PctHPO(n2, offset_sum(n as i128, o2 as i128)),
                Unit::PctVPO(n2, o2) => Unit::PctVPO(n2, offset_sum(n as i128, o2 as i128)),
            },
            Unit::PctH(n) => match rhs {
                Unit::CoR(n2) => Unit::PctHPO(n, offset_of(n2 as i128)),
                Unit::PctH(n2) | Unit::PctV(n2) => Unit::PctH(count_sum(n, n2)),
                Unit::PctHPO(n2, o2) | Unit::PctVPO(n2, o2) => Unit::PctHPO(count_sum(n, n2), o2),
            },
            Unit::PctV(n) => match rhs {
                Unit::CoR(n2) => Unit::PctVPO(n, offset_of(n2 as i128)),
                Unit::PctH(n2) | Unit::PctV(n2) => Unit::PctV(count_sum(n, n2)),
                Unit::PctHPO(n2, o2) | Unit::PctVPO(n2, o2) => Unit::PctVPO(count_sum(n, n2), o2),
            },
            Unit::PctHPO(n, o) => match rhs {
                Unit::CoR(n2) => Unit::PctHPO(n, offset_sum(o as i128, n2 as i128)),
                Unit::PctH(n2) | Unit::PctV(n2) => Unit::PctHPO(count_sum(n, n2), o),
                Unit::PctHPO(n2, o2) | Unit::PctVPO(n2, o2) => Unit::PctHPO(
                    count_sum(n, n2),
                    offset_sum(o as i128, o2 as i128),
                ),
            },
            Unit::PctVPO(n, o) => match rhs {
                Unit::CoR(n2) => Unit::PctVPO(n, offset_sum(o as i128, n2 as i128)),
                Unit::PctH(n2) | Unit::PctV(n2) => Unit::PctVPO(count_sum(n, n2), o),
                Unit::PctHPO(n2, o2) | Unit::PctVPO(n2, o2) => Unit::PctVPO(
                    count_sum(n, n2),
                    offset_sum(o as i128, o2 as i128),
                ),
            },
        }
    }
}

impl AddAssign for Unit {
    fn add_assign(&mut self, rhs: Unit)
        ensures
            *final(self) == old(self).plus(rhs),
    {
        *self = *self + rhs;
    }
}

impl SubSpecImpl for Unit {
    open spec fn obeys_sub_spec() -> bool {
        true
    }

    open spec fn sub_req(self, rhs: Unit) -> bool {
        true
    }

    open spec fn sub_spec(self, rhs: Unit) -> Unit {
        self.minus(rhs)
    }
}

impl Sub for Unit {
    type Output = Unit;

    fn sub(self, rhs: Unit) -> (difference: Unit) {
        match self {
            Unit::CoR(n) => match rhs {
                Unit::CoR(n2) => Unit::CoR(count_diff(n, n2)),
                Unit::PctH(n2) => Unit::PctHPO(n2, offset_of(-(n as i128))),
                Unit::PctV(n2) => Unit::PctVPO(n2, offset_of(-(n as i128))),
                Unit::PctHPO(n2, o2) => Unit::PctHPO(n2, offset_sum(n as i128, -(o2 as i128))),
                Unit::PctVPO(n2, o2) => Unit::PctVPO(n2, offset_sum(n as i128, -(o2 as i128))),
            },
            Unit::PctH(n) => match rhs {
                Unit::CoR(n2) => Unit::PctHPO(n, offset_of(-(n2 as i128))),
                Unit::PctH(n2) | Unit::PctV(n2) => Unit::PctH(count_diff(n, n2)),
                Unit::PctHPO(n2, o2) | Unit::PctVPO(n2, o2) => Unit::PctHPO(count_diff(n, n2), o2),
            },
            Unit::PctV(n) => match rhs {
                Unit::CoR(n2) => Unit::PctVPO(n, offset_of(-(n2 as i128))),
                Unit::PctH(n2) | Unit::PctV(n2) => Unit::PctV(count_diff(n, n2)),
                Unit::PctHPO(n2, o2) | Unit::PctVPO(n2, o2) => Unit::PctVPO(count_diff(n, n2), o2),
            },
            Unit::PctHPO(n, o) => match rhs {
                Unit::CoR(n2) => Unit::PctHPO(n, offset_sum(o as i128, -(n2 as i128))),
                Unit::PctH(n2) | Unit::PctV(n2) => Unit::PctHPO(count_diff(n, n2), o),
                Unit::PctHPO(n2, o2) | Unit::PctVPO(n2, o2) => Unit::PctHPO(
                    count_diff(n, n2),
                    offset_sum(o as i128, -(o2 as i128)),
                ),
            },
            Unit::PctVPO(n, o) => match rhs {
                Unit::CoR(n2) => Unit::PctVPO(n, offset_sum(o as i128, -(n2 as i128))),
                Unit::PctH(n2) | Unit::PctV(n2) => Unit::PctVPO(count_diff(n, n2), o),
                Unit::PctHPO(n2, o2) | Unit::PctVPO(n2, o2) => Unit::PctVPO(
                    count_diff(n, n2),
                    offset_sum(o as i128, -(o2 as i128)),
                ),
            },
        }
    }
}

impl SubAssign for Unit {
    fn sub_assign(&mut self, rhs: Unit)
        ensures
            *final(self) == old(self).minus(rhs),
    {
        *self = *self - rhs;
    }
}

impl Point {
    pub fn new<T: Into<Unit>>(x: T, y: T) -> (point: Point)
        ensures
            call_ensures(T::into, (x,), point.x),
            call_ensures(T::into, (y,), point.y),
    {
        Point { x: x.into(), y: y.into() }
    }

    pub fn cor(x: usize, y: usize) -> (point: Point)
        ensures
            point == (Point { x: Unit::CoR(x), y: Unit::CoR(y) }),
    {
        Point { x: Unit::CoR(x), y: Unit::CoR(y) }
    }

    pub fn pct(x: usize, y: usize) -> (point: Point)
        ensures
            point == (Point { x: Unit::PctH(x), y: Unit::PctV(y) }),
    {
        Point { x: Unit::PctH(x), y: Unit::PctV(y) }
    }

    /// The point `dx` to the right of `self` and `dy` below it.
    pub open spec fn shifted(self, dx: Unit, dy: Unit) -> Point {
        Point { x: self.x.plus(dx), y: self.y.plus(dy) }
    }

    /// The point `dx` to the right of `self` and `dy` below it.
    pub fn offset(self, dx: Unit, dy: Unit) -> (point: Point)
        ensures
            point == self.shifted(dx, dy),
    {
        Point { x: self.x + dx, y: self.y + dy }
    }
}

impl<T: Into<Unit>> FromSpecImpl<T> for Point {
    open spec fn obeys_from_spec() -> bool {
        <T as IntoSpec<Unit>>::obeys_into_spec()
    }

    open spec fn from_spec(value: T) -> Point {
        Point { x: value.into_spec(), y: value.into_spec() }
    }
}

impl<T: Into<Unit>> From<T> for Point {
    fn from(value: T) -> (point: Point) {
        let v: Unit = value.into();
        Point { x: v, y: v }
    }
}

impl<T: Into<Unit>> FromSpecImpl<(T, T)> for Point {
    open spec fn obeys_from_spec() -> bool {
        <T as IntoSpec<Unit>>::obeys_into_spec()
    }

    open spec fn from_spec(value: (T, T)) -> Point {
        Point { x: value.0.into_spec(), y: value.1.into_spec() }
    }
}

impl<T: Into<Unit>> From<(T, T)> for Point {
    fn from(value: (T, T)) -> (point: Point) {
        Point { x: value.0.into(), y: value.1.into() }
    }
}

impl<T: Into<Unit>> FromSpecImpl<(Point, T, T)> for Point {
    open spec fn obeys_from_spec() -> bool {
        <T as IntoSpec<Unit>>::obeys_into_spec()
    }

    open spec fn from_spec(value: (Point, T, T)) -> Point {
        value.0.shifted(value.1.into_spec(), value.2.into_spec())
    }
}

impl<T: Into<Unit>> From<(Point, T, T)> for Point {
    fn from(value: (Point, T, T)) -> (point: Point) {
        let dx: Unit = value.1.into();
        let dy: Unit = value.2.into();
        value.0.offset(dx, dy)
    }
}

impl FromSpecImpl<()> for Point {
    open spec fn obeys_from_spec() -> bool {
        true
    }

    open spec fn from_spec(value: ()) -> Point {
        Point { x: Unit::CoR(0), y: Unit::CoR(0) }
    }
}

impl From<()> for Point {
    fn from(value: ()) -> (point: Point) {
        Point { x: Unit::CoR(0), y: Unit::CoR(0) }
    }
}

} // verus!
