//! The attributes of a widget: its size, padding, alignment, colors, border,
//! title and bindings.

use crate::{
    input::binds::Binds,
    style::{
        align::{AlignX, AlignY},
        color::{Color, ColorBG},
        orientation::Orientation,
        text::TextStyle,
    },
    unit::Unit,
};
use vstd::prelude::*;

verus! {

/// How a widget is laid out and drawn.
#[derive(PartialEq, Debug)]
pub struct Attr {
    /// Whether the widget is left out of layout and drawing.
    pub hide: bool,
    /// The name by which the widget is found.
    pub tag: String,
    /// Whether the widget's background is painted when it is drawn.
    pub should_fill: bool,
    /// Whether the widget is drawn with a heavy border.
    pub selected: bool,
    /// Whether a panel shrinks to fit its children.
    pub flex: bool,
    pub orientation: Orientation,
    pub width: Unit,
    pub height: Unit,
    pub padding_top: Unit,
    pub padding_right: Unit,
    pub padding_bottom: Unit,
    pub padding_left: Unit,
    pub alignx: AlignX,
    pub aligny: AlignY,
    pub text_style: TextStyle,
    pub text_color: Color,
    pub fill: ColorBG,
    pub arc: bool,
    pub hide_border: bool,
    pub border_color: Color,
    pub border_fill: ColorBG,
    pub title: String,
    pub hide_title: bool,
    pub title_align: AlignX,
    pub binds: Binds,
    pub hide_binds: bool,
    pub binds_align: AlignX,
}

impl Attr {
    /// Whether `self` and `other` say the same: field by field, with text
    /// and bindings held to what they hold.
    pub open spec fn same(self, other: Attr) -> bool {
        &&& self.hide == other.hide
        &&& self.tag@ == other.tag@
        &&& self.should_fill == other.should_fill
        &&& self.selected == other.selected
        &&& self.flex == other.flex
        &&& self.orientation == other.orientation
        &&& self.width == other.width
        &&& self.height == other.height
        &&& self.padding_top == other.padding_top
        &&& self.padding_right == other.padding_right
        &&& self.padding_bottom == other.padding_bottom
        &&& self.padding_left == other.padding_left
        &&& self.alignx == other.alignx
        &&& self.aligny == other.aligny
        &&& self.text_style == other.text_style
        &&& self.text_color == other.text_color
        &&& self.fill == other.fill
        &&& self.arc == other.arc
        &&& self.hide_border == other.hide_border
        &&& self.border_color == other.border_color
        &&& self.border_fill == other.border_fill
        &&& self.title@ == other.title@
        &&& self.hide_title == other.hide_title
        &&& self.title_align == other.title_align
        &&& self.binds@ == other.binds@
        &&& self.hide_binds == other.hide_binds
        &&& self.binds_align == other.binds_align
    }

    /// Whether `self` is as `Attr::new` makes it.
    pub open spec fn is_default(self) -> bool {
        &&& self.hide == false
        &&& self.tag@ == Seq::<char>::empty()
        &&& self.should_fill == false
        &&& self.selected == false
        &&& self.flex == false
        &&& self.orientation == Orientation::Vertical
        &&& self.width == Unit::CoR(0)
        &&& self.height == Unit::CoR(0)
        &&& self.padding_top == Unit::CoR(1)
        &&& self.padding_right == Unit::CoR(1)
        &&& self.padding_bottom == Unit::CoR(1)
        &&& self.padding_left == Unit::CoR(1)
        &&& self.alignx == AlignX::Left
        &&& self.aligny == AlignY::Top
        &&& self.text_style == TextStyle::NoBold
        &&& self.text_color == Color::White
        &&& self.fill == ColorBG::Unset
        &&& self.arc == false
        &&& self.hide_border == false
        &&& self.border_color == Color::White
        &&& self.border_fill == ColorBG::Unset
        &&& self.title@ == Seq::<char>::empty()
        &&& self.hide_title == true
        &&& self.title_align == AlignX::Left
        &&& self.binds@.len() == 0
        &&& self.hide_binds == true
        &&& self.binds_align == AlignX::Left
    }

    /// The padding: top, right, bottom, left.
    pub open spec fn padding(self) -> (Unit, Unit, Unit, Unit) {
        (self.padding_top, self.padding_right, self.padding_bottom, self.padding_left)
    }

    /// The width with the padding on both sides.
    pub open spec fn outer_width(self) -> Unit {
        self.padding_left.plus(self.width).plus(self.padding_right)
    }

    /// The height with the padding above and below.
    pub open spec fn outer_height(self) -> Unit {
        self.padding_top.plus(self.height).plus(self.padding_bottom)
    }

    pub fn new() -> (attr: Attr)
        ensures
            attr.is_default(),
    {
        Attr {
            hide: false,
            tag: String::new(),
            should_fill: false,
            selected: false,
            flex: false,
            orientation: Orientation::Vertical,
            width: Unit::CoR(0),
            height: Unit::CoR(0),
            padding_top: Unit::CoR(1),
            padding_right: Unit::CoR(1),
            padding_bottom: Unit::CoR(1),
            padding_left: Unit::CoR(1),
            alignx: AlignX::Left,
            aligny: AlignY::Top,
            text_style: TextStyle::NoBold,
            text_color: Color::White,
            fill: ColorBG::Unset,
            arc: false,
            hide_border: false,
            border_color: Color::White,
            border_fill: ColorBG::Unset,
            title: String::new(),
            hide_title: true,
            title_align: AlignX::Left,
            binds: Binds::new(),
            hide_binds: true,
            binds_align: AlignX::Left,
        }
    }

    pub fn with(attr: &Attr) -> (copy: Attr)
        ensures
            copy.same(*attr),
    {
        attr.clone()
    }

    pub fn from(attr: &Attr) -> (copy: Option<Attr>)
        ensures
            copy matches Some(a) && a.same(*attr),
    {
        Some(attr.clone())
    }

    pub fn wrap(&mut self) -> (copy: Option<Attr>)
        ensures
            copy matches Some(a) && a.same(*old(self)),
            *final(self) == *old(self),
    {
        Some(self.clone())
    }

    pub fn hidden(&mut self) -> (hidden: bool)
        ensures
            hidden == old(self).hide,
            *final(self) == *old(self),
    {
        self.hide
    }

    pub fn total_width(&self) -> (total: Unit)
        ensures
            total == self.outer_width(),
    {
        self.padding_left + self.width + self.padding_right
    }

    pub fn total_height(&self) -> (total: Unit)
        ensures
            total == self.outer_height(),
    {
        self.padding_top + self.height + self.padding_bottom
    }

    pub fn tag(&mut self, value: &str) -> (attr: &mut Attr)
        ensures
            attr.tag@ == value@,
            *attr == (Attr { tag: attr.tag, ..*old(self) }),
            *final(self) == *final(attr),
    {
        self.tag = String::from_str(value);
        self
    }

    pub fn flex(&mut self) -> (attr: &mut Attr)
        ensures
            *attr == (Attr { flex: true, ..*old(self) }),
            *final(self) == *final(attr),
    {
        self.flex = true;
        self
    }

    pub fn no_flex(&mut self) -> (attr: &mut Attr)
        ensures
            *attr == (Attr { flex: false, ..*old(self) }),
            *final(self) == *final(attr),
    {
        self.flex = false;
        self
    }

    pub fn orientation(&mut self, value: Orientation) -> (attr: &mut Attr)
        ensures
            *attr == (Attr { orientation: value, ..*old(self) }),
            *final(self) == *final(attr),
    {
        self.orientation = value;
        self
    }

    pub fn horizontal(&mut self) -> (attr: &mut Attr)
        ensures
            *attr == (Attr { orientation: Orientation::Horizontal, ..*old(self) }),
            *final(self) == *final(attr),
    {
        self.orientation = Orientation::Horizontal;
        self
    }

    pub fn vertical(&mut self) -> (attr: &mut Attr)
        ensures
            *attr == (Attr { orientation: Orientation::Vertical, ..*old(self) }),
            *final(self) == *final(attr),
    {
        self.orientation = Orientation::Vertical;
        self
    }

    pub fn size<T: Into<Unit>>(&mut self, xvalue: T, yvalue: T) -> (attr: &mut Attr)
        ensures
            call_ensures(T::into, (xvalue,), attr.width),
            call_ensures(T::into, (yvalue,), attr.height),
            *attr == (Attr { width: attr.width, height: attr.height, ..*old(self) }),
            *final(self) == *final(attr),
    {
        let width: Unit = xvalue.into();
        let height: Unit = yvalue.into();
        self.width = width;
        self.height = height;
        self
    }

    pub fn width<T: Into<Unit>>(&mut self, value: T) -> (attr: &mut Attr)
        ensures
            call_ensures(T::into, (value,), attr.width),
            *attr == (Attr { width: attr.width, ..*old(self) }),
            *final(self) == *final(attr),
    {
        let unit: Unit = value.into();
        self.width = unit;
        self
    }

    pub fn inc_width<T: Into<Unit>>(&mut self, value: T) -> (attr: &mut Attr)
        ensures
            exists|by: Unit| #[trigger]
                call_ensures(T::into, (value,), by) && attr.width == old(self).width.plus(by),
            *attr == (Attr { width: attr.width, ..*old(self) }),
            *final(self) == *final(attr),
    {
        let by: Unit = value.into();
        self.width = self.width + by;
        self
    }

    pub fn dec_width<T: Into<Unit>>(&mut self, value: T) -> (attr: &mut Attr)
        ensures
            exists|by: Unit| #[trigger]
                call_ensures(T::into, (value,), by) && attr.width == old(self).width.minus(by),
            *attr == (Attr { width: attr.width, ..*old(self) }),
            *final(self) == *final(attr),
    {
        let by: Unit = value.into();
        self.width = self.width - by;
        self
    }

    pub fn height<T: Into<Unit>>(&mut self, value: T) -> (attr: &mut Attr)
        ensures
            call_ensures(T::into, (value,), attr.height),
            *attr == (Attr { height: attr.height, ..*old(self) }),
            *final(self) == *final(attr),
    {
        let unit: Unit = value.into();
        self.height = unit;
        self
    }

    pub fn inc_height<T: Into<Unit>>(&mut self, value: T) -> (attr: &mut Attr)
        ensures
            exists|by: Unit| #[trigger]
                call_ensures(T::into, (value,), by) && attr.height == old(self).height.plus(by),
            *attr == (Attr { height: attr.height, ..*old(self) }),
            *final(self) == *final(attr),
    {
        let by: Unit = value.into();
        self.height = self.height + by;
        self
    }

    pub fn dec_height<T: Into<Unit>>(&mut self, value: T) -> (attr: &mut Attr)
        ensures
            exists|by: Unit| #[trigger]
                call_ensures(T::into, (value,), by) && attr.height == old(self).height.minus(by),
            *attr == (Attr { height: attr.height, ..*old(self) }),
            *final(self) == *final(attr),
    {
        let by: Unit = value.into();
        self.height = self.height - by;
        self
    }

    /// Sets the padding from one value (all sides), two (top and bottom,
    /// then left and right) or four (top, right, bottom, left). A slice of
    /// any other length changes nothing.
    pub fn paddingd<T: Into<Unit> + Copy>(&mut self, value: &[T]) -> (attr: &mut Attr)
        ensures
            padding_of(value@, Some(attr.padding())) || (padding_of(value@, None) && *attr == *old(
                self,
            )),
            *attr == (Attr {
                padding_top: attr.padding_top,
                padding_right: attr.padding_right,
                padding_bottom: attr.padding_bottom,
                padding_left: attr.padding_left,
                ..*old(self)
            }),
            *final(self) == *final(attr),
    {
        match sides(value) {
            Some(padding) => {
                self.padding_top = padding.0;
                self.padding_right = padding.1;
                self.padding_bottom = padding.2;
                self.padding_left = padding.3;
            },
            None => {},
        }
        self
    }

    pub fn pad<T: Into<Unit>>(&mut self, value: T) -> (attr: &mut Attr)
        ensures
            call_ensures(T::into, (value,), attr.padding_top),
            *attr == (Attr { padding_top: attr.padding_top, padding_right: attr.padding_top, padding_bottom: attr.padding_top, padding_left: attr.padding_top, ..*old(self) }),
            *final(self) == *final(attr),
    {
        let unit: Unit = value.into();
        self.padding_top = unit;
        self.padding_right = unit;
        self.padding_bottom = unit;
        self.padding_left = unit;
        self
    }

    pub fn paddingx<T: Into<Unit>>(&mut self, value: T) -> (attr: &mut Attr)
        ensures
            call_ensures(T::into, (value,), attr.padding_right),
            *attr == (Attr { padding_right: attr.padding_right, padding_left: attr.padding_right, ..*old(self) }),
            *final(self) == *final(attr),
    {
        let unit: Unit = value.into();
        self.padding_right = unit;
        self.padding_left = unit;
        self
    }

    pub fn paddingy<T: Into<Unit>>(&mut self, value: T) -> (attr: &mut Attr)
        ensures
            call_ensures(T::into, (value,), attr.padding_top),
            *attr == (Attr { padding_top: attr.padding_top, padding_bottom: attr.padding_top, ..*old(self) }),
            *final(self) == *final(attr),
    {
        let unit: Unit = value.into();
        self.padding_top = unit;
        self.padding_bottom = unit;
        self
    }

    pub fn padding_top<T: Into<Unit>>(&mut self, value: T) -> (attr: &mut Attr)
        ensures
            call_ensures(T::into, (value,), attr.padding_top),
            *attr == (Attr { padding_top: attr.padding_top, ..*old(self) }),
            *final(self) == *final(attr),
    {
        let unit: Unit = value.into();
        self.padding_top = unit;
        self
    }

    pub fn padding_right<T: Into<Unit>>(&mut self, value: T) -> (attr: &mut Attr)
        ensures
            call_ensures(T::into, (value,), attr.padding_right),
            *attr == (Attr { padding_right: attr.padding_right, ..*old(self) }),
            *final(self) == *final(attr),
    {
        let unit: Unit = value.into();
        self.padding_right = unit;
        self
    }

    pub fn padding_bottom<T: Into<Unit>>(&mut self, value: T) -> (attr: &mut Attr)
        ensures
            call_ensures(T::into, (value,), attr.padding_bottom),
            *attr == (Attr { padding_bottom: attr.padding_bottom, ..*old(self) }),
            *final(self) == *final(attr),
    {
        let unit: Unit = value.into();
        self.padding_bottom = unit;
        self
    }

    pub fn padding_left<T: Into<Unit>>(&mut self, value: T) -> (attr: &mut Attr)
        ensures
            call_ensures(T::into, (value,), attr.padding_left),
            *attr == (Attr { padding_left: attr.padding_left, ..*old(self) }),
            *final(self) == *final(attr),
    {
        let unit: Unit = value.into();
        self.padding_left = unit;
        self
    }

    pub fn align(&mut self, xvalue: AlignX, yvalue: AlignY) -> (attr: &mut Attr)
        ensures
            *attr == (Attr { alignx: xvalue, aligny: yvalue, ..*old(self) }),
            *final(self) == *final(attr),
    {
        self.alignx = xvalue;
        self.aligny = yvalue;
        self
    }

    pub fn center(&mut self) -> (attr: &mut Attr)
        ensures
            *attr == (Attr { alignx: AlignX::Center, aligny: AlignY::Center, ..*old(self) }),
            *final(self) == *final(attr),
    {
        self.alignx = AlignX::Center;
        self.aligny = AlignY::Center;
        self
    }

    pub fn center_all(&mut self) -> (attr: &mut Attr)
        ensures
            *attr == (Attr { alignx: AlignX::Center, aligny: AlignY::Center, title_align: AlignX::Center, binds_align: AlignX::Center, ..*old(self) }),
            *final(self) == *final(attr),
    {
        self.alignx = AlignX::Center;
        self.aligny = AlignY::Center;
        self.title_align = AlignX::Center;
        self.binds_align = AlignX::Center;
        self
    }

    pub fn alignx(&mut self, value: AlignX) -> (attr: &mut Attr)
        ensures
            *attr == (Attr { alignx: value, ..*old(self) }),
            *final(self) == *final(attr),
    {
        self.alignx = value;
        self
    }

    pub fn centerx(&mut self) -> (attr: &mut Attr)
        ensures
            *attr == (Attr { alignx: AlignX::Center, ..*old(self) }),
            *final(self) == *final(attr),
    {
        self.alignx = AlignX::Center;
        self
    }

    pub fn aligny(&mut self, value: AlignY) -> (attr: &mut Attr)
        ensures
            *attr == (Attr { aligny: value, ..*old(self) }),
            *final(self) == *final(attr),
    {
        self.aligny = value;
        self
    }

    pub fn centery(&mut self) -> (attr: &mut Attr)
        ensures
            *attr == (Attr { aligny: AlignY::Center, ..*old(self) }),
            *final(self) == *final(attr),
    {
        self.aligny = AlignY::Center;
        self
    }

    pub fn fill(&mut self, value: ColorBG) -> (attr: &mut Attr)
        ensures
            *attr == (Attr { fill: value, border_fill: value, ..*old(self) }),
            *final(self) == *final(attr),
    {
        self.fill = value;
        self.border_fill = value;
        self
    }

    pub fn fg(&mut self, value: Color) -> (attr: &mut Attr)
        ensures
            *attr == (Attr { text_color: value, border_color: value, ..*old(self) }),
            *final(self) == *final(attr),
    {
        self.text_color = value;
        self.border_color = value;
        self
    }

    pub fn text(&mut self, style_value: TextStyle, color_value: Color) -> (attr: &mut Attr)
        ensures
            *attr == (Attr { text_style: style_value, text_color: color_value, ..*old(self) }),
            *final(self) == *final(attr),
    {
        self.text_style = style_value;
        self.text_color = color_value;
        self
    }

    pub fn text_style(&mut self, value: TextStyle) -> (attr: &mut Attr)
        ensures
            *attr == (Attr { text_style: value, ..*old(self) }),
            *final(self) == *final(attr),
    {
        self.text_style = value;
        self
    }

    pub fn bold(&mut self) -> (attr: &mut Attr)
        ensures
            *attr == (Attr { text_style: TextStyle::Bold, ..*old(self) }),
            *final(self) == *final(attr),
    {
        self.text_style = TextStyle::Bold;
        self
    }

    pub fn italic(&mut self) -> (attr: &mut Attr)
        ensures
            *attr == (Attr { text_style: TextStyle::Italic, ..*old(self) }),
            *final(self) == *final(attr),
    {
        self.text_style = TextStyle::Italic;
        self
    }

    pub fn underline(&mut self) -> (attr: &mut Attr)
        ensures
            *attr == (Attr { text_style: TextStyle::Underline, ..*old(self) }),
            *final(self) == *final(attr),
    {
        self.text_style = TextStyle::Underline;
        self
    }

    pub fn text_color(&mut self, value: Color) -> (attr: &mut Attr)
        ensures
            *attr == (Attr { text_color: value, ..*old(self) }),
            *final(self) == *final(attr),
    {
        self.text_color = value;
        self
    }

    pub fn arc(&mut self) -> (attr: &mut Attr)
        ensures
            *attr == (Attr { arc: true, ..*old(self) }),
            *final(self) == *final(attr),
    {
        self.arc = true;
        self
    }

    pub fn square(&mut self) -> (attr: &mut Attr)
        ensures
            *attr == (Attr { arc: false, ..*old(self) }),
            *final(self) == *final(attr),
    {
        self.arc = false;
        self
    }

    pub fn show_border(&mut self, value: bool) -> (attr: &mut Attr)
        ensures
            *attr == (Attr { hide_border: !value, ..*old(self) }),
            *final(self) == *final(attr),
    {
        self.hide_border = !value;
        self
    }

    pub fn hide_border(&mut self) -> (attr: &mut Attr)
        ensures
            *attr == (Attr { hide_border: true, ..*old(self) }),
            *final(self) == *final(attr),
    {
        self.hide_border = true;
        self
    }

    pub fn border_color(&mut self, value: Color) -> (attr: &mut Attr)
        ensures
            *attr == (Attr { border_color: value, ..*old(self) }),
            *final(self) == *final(attr),
    {
        self.border_color = value;
        self
    }

    pub fn border_fill(&mut self, value: ColorBG) -> (attr: &mut Attr)
        ensures
            *attr == (Attr { border_fill: value, ..*old(self) }),
            *final(self) == *final(attr),
    {
        self.border_fill = value;
        self
    }

    pub fn title(&mut self, value: &str) -> (attr: &mut Attr)
        ensures
            attr.title@ == value@,
            *attr == (Attr { title: attr.title, hide_title: false, ..*old(self) }),
            *final(self) == *final(attr),
    {
        self.title = String::from_str(value);
        self.hide_title = false;
        self
    }

    pub fn show_title(&mut self) -> (attr: &mut Attr)
        ensures
            *attr == (Attr { hide_title: false, ..*old(self) }),
            *final(self) == *final(attr),
    {
        self.hide_title = false;
        self
    }

    pub fn hide_title(&mut self) -> (attr: &mut Attr)
        ensures
            *attr == (Attr { hide_title: true, ..*old(self) }),
            *final(self) == *final(attr),
    {
        self.hide_title = true;
        self
    }

    pub fn title_align(&mut self, value: AlignX) -> (attr: &mut Attr)
        ensures
            *attr == (Attr { title_align: value, ..*old(self) }),
            *final(self) == *final(attr),
    {
        self.title_align = value;
        self
    }

    pub fn binds(&mut self, value: Binds) -> (attr: &mut Attr)
        ensures
            *attr == (Attr { binds: value, hide_binds: false, ..*old(self) }),
            *final(self) == *final(attr),
    {
        self.binds = value;
        self.hide_binds = false;
        self
    }

    pub fn show_binds(&mut self) -> (attr: &mut Attr)
        ensures
            *attr == (Attr { hide_binds: false, ..*old(self) }),
            *final(self) == *final(attr),
    {
        self.hide_binds = false;
        self
    }

    pub fn hide_binds(&mut self) -> (attr: &mut Attr)
        ensures
            *attr == (Attr { hide_binds: true, ..*old(self) }),
            *final(self) == *final(attr),
    {
        self.hide_binds = true;
        self
    }

    pub fn binds_align(&mut self, value: AlignX) -> (attr: &mut Attr)
        ensures
            *attr == (Attr { binds_align: value, ..*old(self) }),
            *final(self) == *final(attr),
    {
        self.binds_align = value;
        self
    }

}

/// Whether `padding` (top, right, bottom, left) is what a list of values
/// stands for: one value is the padding of all sides; of two, the first is
/// that of top and bottom and the second that of left and right; four are
/// those of top, right, bottom and left. A list of any other length stands
/// for no padding.
pub open spec fn padding_of<T: Into<Unit>>(
    values: Seq<T>,
    padding: Option<(Unit, Unit, Unit, Unit)>,
) -> bool {
    match padding {
        Some((top, right, bottom, left)) => if values.len() == 1 {
            call_ensures(T::into, (values[0],), top) && right == top && bottom == top && left
                == top
        } else if values.len() == 2 {
            call_ensures(T::into, (values[0],), top) && call_ensures(T::into, (values[1],), right)
                && bottom == top && left == right
        } else if values.len() == 4 {
            call_ensures(T::into, (values[0],), top) && call_ensures(T::into, (values[1],), right)
                && call_ensures(T::into, (values[2],), bottom) && call_ensures(
                T::into,
                (values[3],),
                left,
            )
        } else {
            false
        },
        None => values.len() != 1 && values.len() != 2 && values.len() != 4,
    }
}

fn sides<T: Into<Unit> + Copy>(value: &[T]) -> (padding: Option<(Unit, Unit, Unit, Unit)>)
    ensures
        padding_of(value@, padding),
{
    if value.len() == 1 {
        let p: Unit = value[0].into();
        Some((p, p, p, p))
    } else if value.len() == 2 {
        let pttb: Unit = value[0].into();
        let pltr: Unit = value[1].into();
        Some((pttb, pltr, pttb, pltr))
    } else if value.len() == 4 {
        let top: Unit = value[0].into();
        let right: Unit = value[1].into();
        let bottom: Unit = value[2].into();
        let left: Unit = value[3].into();
        Some((top, right, bottom, left))
    } else {
        None
    }
}

impl Clone for Attr {
    fn clone(&self) -> (copy: Attr)
        ensures
            copy.same(*self),
    {
        Attr {
            hide: self.hide,
            tag: self.tag.clone(),
            should_fill: self.should_fill,
            selected: self.selected,
            flex: self.flex,
            orientation: self.orientation,
            width: self.width,
            height: self.height,
            padding_top: self.padding_top,
            padding_right: self.padding_right,
            padding_bottom: self.padding_bottom,
            padding_left: self.padding_left,
            alignx: self.alignx,
            aligny: self.aligny,
            text_style: self.text_style,
            text_color: self.text_color,
            fill: self.fill,
            arc: self.arc,
            hide_border: self.hide_border,
            border_color: self.border_color,
            border_fill: self.border_fill,
            title: self.title.clone(),
            hide_title: self.hide_title,
            title_align: self.title_align,
            binds: self.binds.clone(),
            hide_binds: self.hide_binds,
            binds_align: self.binds_align,
        }
    }
}

impl Default for Attr {
    fn default() -> (attr: Attr)
        ensures
            attr.is_default(),
    {
        Attr::new()
    }
}

} // verus!
