//! Mouse buttons and wheels, and the mask of a mouse report.

use super::mask::Mask;
use super::modifier::{has_bit, push_if, Modifier, ModifierList};
use vstd::prelude::*;
use vstd::std_specs::convert::FromSpecImpl;

verus! {

// Reported as ESC [ < btn ; col ; row M (m if release)
// The upper two bits of btn are moved one byte up
// Ex. scroll wheel down has a button id of 5 (0101), this is sent as 65 (0100 0001)
// Modifiers are also given different bit values than with keys
#[derive(Clone, Copy, PartialEq, Eq, Debug, Structural)]
pub enum MouseState {
    Click,
    Scroll,
    Release,
    Drag,
}

impl MouseState {
    /// What is shown after a button in this state.
    pub open spec fn suffix(self) -> Seq<char> {
        match self {
            MouseState::Click | MouseState::Scroll => Seq::empty(),
            MouseState::Release => " (release)"@,
            MouseState::Drag => " (drag)"@,
        }
    }

    pub fn to_string(&self) -> (text: String)
        ensures
            text@ == self.suffix(),
    {
        match self {
            MouseState::Click | MouseState::Scroll => String::new(),
            MouseState::Release => String::from_str(" (release)"),
            MouseState::Drag => String::from_str(" (drag)"),
        }
    }
}

#[derive(Clone, Copy, PartialEq, Eq, Debug, Structural)]
pub enum Mouse {
    Left,
    Middle,
    Right,
    WheelUp,
    WheelDown,
    WheelLeft,
    WheelRight,
}

pub const MOUSE_SHIFT: usize = 0b0000_0100;

pub const MOUSE_ALT: usize = 0b0000_1000;

pub const MOUSE_CTRL: usize = 0b0001_0000;

pub const MOUSE_DRAG: usize = 0b0010_0000;

impl Mouse {
    /// The number that stands for the button or wheel in a mouse report.
    pub open spec fn code(self) -> int {
        match self {
            Mouse::Left => 0b0000_0000,
            Mouse::Middle => 0b0000_0001,
            Mouse::Right => 0b0000_0010,
            Mouse::WheelUp => 0b0100_0000,
            Mouse::WheelDown => 0b0100_0001,
            Mouse::WheelLeft => 0b0100_0010,
            Mouse::WheelRight => 0b0100_0011,
        }
    }

    /// The button or wheel that `value` stands for; the left button where it
    /// stands for none.
    pub open spec fn of_code(value: int) -> Mouse {
        if value == 0b0000_0001 {
            Mouse::Middle
        } else if value == 0b0000_0010 {
            Mouse::Right
        } else if value == 0b0100_0000 {
            Mouse::WheelUp
        } else if value == 0b0100_0001 {
            Mouse::WheelDown
        } else if value == 0b0100_0010 {
            Mouse::WheelLeft
        } else if value == 0b0100_0011 {
            Mouse::WheelRight
        } else {
            Mouse::Left
        }
    }

    /// Whether it is one of the three buttons, not a wheel.
    pub open spec fn is_button(self) -> bool {
        self is Left || self is Middle || self is Right
    }

    /// What a mask is without its bits for Shift, Alt, Ctrl and dragging: the
    /// two low bits, and all from the seventh up.
    pub open spec fn button_bits(mask: usize) -> int {
        mask % 4 + (mask / 64) * 64
    }

    /// The button or wheel of a mouse report's mask.
    pub open spec fn button_of(mask: usize) -> Mouse {
        Mouse::of_code(Mouse::button_bits(mask))
    }

    /// The state of a mouse report's mask: a drag where the drag bit is set,
    /// else a click for a button and a scroll for a wheel.
    pub open spec fn state_of(mask: usize) -> MouseState {
        if has_bit(mask as int, MOUSE_DRAG as int) {
            MouseState::Drag
        } else if Mouse::button_of(mask).is_button() {
            MouseState::Click
        } else {
            MouseState::Scroll
        }
    }

    /// The modifiers of a mouse report's mask, in the order Shift, Alt, Ctrl.
    pub open spec fn modifiers_of(mask: usize) -> Seq<Modifier> {
        let s0 = Seq::<Modifier>::empty();
        let s1 = push_if(s0, has_bit(mask as int, MOUSE_SHIFT as int), Modifier::Shift);
        let s2 = push_if(s1, has_bit(mask as int, MOUSE_ALT as int), Modifier::Alt);
        push_if(s2, has_bit(mask as int, MOUSE_CTRL as int), Modifier::Ctrl)
    }

    /// The button or wheel as it is shown.
    pub open spec fn label(self) -> Seq<char> {
        match self {
            Mouse::Left => "Left Click"@,
            Mouse::Middle => "Middle Click"@,
            Mouse::Right => "Right Click"@,
            Mouse::WheelUp => "Scroll Up"@,
            Mouse::WheelDown => "Scroll Down"@,
            Mouse::WheelLeft => "Scroll Left"@,
            Mouse::WheelRight => "Scroll Right"@,
        }
    }

    pub fn to_string(&self) -> (text: String)
        ensures
            text@ == self.label(),
    {
        match self {
            Mouse::Left => String::from_str("Left Click"),
            Mouse::Middle => String::from_str("Middle Click"),
            Mouse::Right => String::from_str("Right Click"),
            Mouse::WheelUp => String::from_str("Scroll Up"),
            Mouse::WheelDown => String::from_str("Scroll Down"),
            Mouse::WheelLeft => String::from_str("Scroll Left"),
            Mouse::WheelRight => String::from_str("Scroll Right"),
        }
    }

    /// The state that a report of this button or wheel has by itself: a click
    /// for a button, a scroll for a wheel.
    pub fn default_state(self) -> (state: MouseState)
        ensures
            state == if self.is_button() {
                MouseState::Click
            } else {
                MouseState::Scroll
            },
    {
        match self {
            Mouse::Left | Mouse::Middle | Mouse::Right => MouseState::Click,
            _ => MouseState::Scroll,
        }
    }
}

impl FromSpecImpl<usize> for Mouse {
    open spec fn obeys_from_spec() -> bool {
        true
    }

    open spec fn from_spec(value: usize) -> Mouse {
        Mouse::of_code(value as int)
    }
}

impl From<usize> for Mouse {
    fn from(value: usize) -> (button: Mouse) {
        match value {
            0b0000_0000 => Mouse::Left,
            0b0000_0001 => Mouse::Middle,
            0b0000_0010 => Mouse::Right,
            0b0100_0000 => Mouse::WheelUp,
            0b0100_0001 => Mouse::WheelDown,
            0b0100_0010 => Mouse::WheelLeft,
            0b0100_0011 => Mouse::WheelRight,
            _ => Mouse::Left,  // Fallback to left button on unknown value
        }
    }
}

proof fn lemma_mouse_bits(mask: usize)
    ensures
        (mask & !(MOUSE_SHIFT | MOUSE_ALT | MOUSE_CTRL | MOUSE_DRAG)) == Mouse::button_bits(mask),
        (mask & MOUSE_SHIFT != 0) == has_bit(mask as int, MOUSE_SHIFT as int),
        (mask & MOUSE_ALT != 0) == has_bit(mask as int, MOUSE_ALT as int),
        (mask & MOUSE_CTRL != 0) == has_bit(mask as int, MOUSE_CTRL as int),
        (mask & MOUSE_DRAG != 0) == has_bit(mask as int, MOUSE_DRAG as int),
{
    assert((mask & !(4usize | 8usize | 16usize | 32usize)) == mask % 4 + (mask / 64) * 64)
        by (bit_vector);
    assert((mask & 4 != 0) == ((mask / 4) % 2 == 1)) by (bit_vector);
    assert((mask & 8 != 0) == ((mask / 8) % 2 == 1)) by (bit_vector);
    assert((mask & 16 != 0) == ((mask / 16) % 2 == 1)) by (bit_vector);
    assert((mask & 32 != 0) == ((mask / 32) % 2 == 1)) by (bit_vector);
}

impl Mask for Mouse {
    type Output = (Mouse, MouseState, ModifierList);

    open spec fn mask_spec(&self) -> int {
        self.code()
    }

    open spec fn unmasks_to(mask: usize, out: (Mouse, MouseState, ModifierList)) -> bool {
        &&& out.0 == Mouse::button_of(mask)
        &&& out.1 == Mouse::state_of(mask)
        &&& out.2@ == Mouse::modifiers_of(mask)
    }

    fn mask(&self) -> (mask: usize) {
        match self {
            Mouse::Left => 0b0000_0000,
            Mouse::Middle => 0b0000_0001,
            Mouse::Right => 0b0000_0010,
            Mouse::WheelUp => 0b0100_0000,
            Mouse::WheelDown => 0b0100_0001,
            Mouse::WheelLeft => 0b0100_0010,
            Mouse::WheelRight => 0b0100_0011,
        }
    }

    fn unmask(mask: usize) -> (out: (Mouse, MouseState, ModifierList)) {
        proof {
            lemma_mouse_bits(mask);
        }
        // Remove modifier bits
        let btn: Mouse = Mouse::from(mask & !(MOUSE_SHIFT | MOUSE_ALT | MOUSE_CTRL | MOUSE_DRAG));

        let state = if mask & MOUSE_DRAG != 0 {
            MouseState::Drag
        } else {
            btn.default_state()
        };

        let mut mods: Vec<Modifier> = Vec::new();

        if mask & MOUSE_SHIFT != 0 {
            mods.push(Modifier::Shift);
        }
        if mask & MOUSE_ALT != 0 {
            mods.push(Modifier::Alt);
        }
        if mask & MOUSE_CTRL != 0 {
            mods.push(Modifier::Ctrl);
        }
        (btn, state, ModifierList(mods))
    }
}

/// The button of a mask made of a button's or wheel's code and any of the
/// bits for Shift, Alt, Ctrl and dragging is that button or wheel.
pub proof fn lemma_button_survives_flags(button: Mouse, shift: bool, alt: bool, ctrl: bool, drag: bool)
    ensures
        Mouse::button_of(
            (button.code() + if shift { 4int } else { 0 } + if alt { 8int } else { 0 } + if ctrl {
                16int
            } else {
                0
            } + if drag { 32int } else { 0 }) as usize,
        ) == button,
{
}

} // verus!
