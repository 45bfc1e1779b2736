//! Colors of the text and of the background.

// 256-color ids and RGB colors; RGB requires a true color terminal.
use crate::text::{decimal, push_decimal};
use vstd::prelude::*;

verus! {

// Foreground
#[derive(Copy, Clone, PartialEq, Eq, Debug, Structural)]
pub enum Color {
    /// No color: nothing is sent.
    Unset,
    Reset,
    Black,
    Red,
    Green,
    Yellow,
    Blue,
    Magenta,
    Cyan,
    White,
    ID(usize),
    RGB(usize, usize, usize),
}

impl Color {
    /// The same color on the other layer.
    pub open spec fn counterpart(self) -> ColorBG {
        match self {
            Color::Unset => ColorBG::Unset,
            Color::Reset => ColorBG::Reset,
            Color::Black => ColorBG::Black,
            Color::Red => ColorBG::Red,
            Color::Green => ColorBG::Green,
            Color::Yellow => ColorBG::Yellow,
            Color::Blue => ColorBG::Blue,
            Color::Magenta => ColorBG::Magenta,
            Color::Cyan => ColorBG::Cyan,
            Color::White => ColorBG::White,
            Color::ID(id) => ColorBG::ID(id),
            Color::RGB(r, g, b) => ColorBG::RGB(r, g, b),
        }
    }

    pub fn to_bg(&self) -> (color: ColorBG)
        ensures
            color == self.counterpart(),
    {
        match self {
            Color::Unset => ColorBG::Unset,
            Color::Reset => ColorBG::Reset,
            Color::Black => ColorBG::Black,
            Color::Red => ColorBG::Red,
            Color::Green => ColorBG::Green,
            Color::Yellow => ColorBG::Yellow,
            Color::Blue => ColorBG::Blue,
            Color::Magenta => ColorBG::Magenta,
            Color::Cyan => ColorBG::Cyan,
            Color::White => ColorBG::White,
            Color::ID(id) => ColorBG::ID(*id),
            Color::RGB(r, g, b) => ColorBG::RGB(*r, *g, *b),
        }
    }
}

impl super::PrintableStyle for Color {
    open spec fn sequence(&self) -> Seq<char> {
        match self {
            Color::Unset => Seq::empty(),
            Color::Reset => "\x1b[39m"@,
            Color::Black => "\x1b[30m"@,
            Color::Red => "\x1b[31m"@,
            Color::Green => "\x1b[32m"@,
            Color::Yellow => "\x1b[33m"@,
            Color::Blue => "\x1b[34m"@,
            Color::Magenta => "\x1b[35m"@,
            Color::Cyan => "\x1b[36m"@,
            Color::White => "\x1b[37m"@,
            Color::ID(id) => "\x1b[38;5;"@ + decimal(*id as nat) + "m"@,
            Color::RGB(r, g, b) => "\x1b[38;2;"@ + decimal(*r as nat) + ";"@ + decimal(*g as nat)
                + ";"@ + decimal(*b as nat) + "m"@,
        }
    }

    fn print(&self) -> (sequence: String) {
        match self {
            Color::Unset => String::new(),
            Color::Reset => String::from_str("\x1b[39m"),
            Color::Black => String::from_str("\x1b[30m"),
            Color::Red => String::from_str("\x1b[31m"),
            Color::Green => String::from_str("\x1b[32m"),
            Color::Yellow => String::from_str("\x1b[33m"),
            Color::Blue => String::from_str("\x1b[34m"),
            Color::Magenta => String::from_str("\x1b[35m"),
            Color::Cyan => String::from_str("\x1b[36m"),
            Color::White => String::from_str("\x1b[37m"),
            Color::ID(id) => {
                let mut sequence = String::from_str("\x1b[38;5;");
                push_decimal(&mut sequence, *id);
                sequence.append("m");
                sequence
            },
            Color::RGB(r, g, b) => {
                let mut sequence = String::from_str("\x1b[38;2;");
                push_decimal(&mut sequence, *r);
                sequence.append(";");
                push_decimal(&mut sequence, *g);
                sequence.append(";");
                push_decimal(&mut sequence, *b);
                sequence.append("m");
                sequence
            },
        }
    }
}

// Background
#[derive(Copy, Clone, PartialEq, Eq, Debug, Structural)]
pub enum ColorBG {
    /// No color: nothing is sent.
    Unset,
    Reset,
    Black,
    Red,
    Green,
    Yellow,
    Blue,
    Magenta,
    Cyan,
    White,
    ID(usize),
    RGB(usize, usize, usize),
}

impl ColorBG {
    /// The same color on the other layer.
    pub open spec fn counterpart(self) -> Color {
        match self {
            ColorBG::Unset => Color::Unset,
            ColorBG::Reset => Color::Reset,
            ColorBG::Black => Color::Black,
            ColorBG::Red => Color::Red,
            ColorBG::Green => Color::Green,
            ColorBG::Yellow => Color::Yellow,
            ColorBG::Blue => Color::Blue,
            ColorBG::Magenta => Color::Magenta,
            ColorBG::Cyan => Color::Cyan,
            ColorBG::White => Color::White,
            ColorBG::ID(id) => Color::ID(id),
            ColorBG::RGB(r, g, b) => Color::RGB(r, g, b),
        }
    }

    pub fn to_fg(&self) -> (color: Color)
        ensures
            color == self.counterpart(),
    {
        match self {
            ColorBG::Unset => Color::Unset,
            ColorBG::Reset => Color::Reset,
            ColorBG::Black => Color::Black,
            ColorBG::Red => Color::Red,
            ColorBG::Green => Color::Green,
            ColorBG::Yellow => Color::Yellow,
            ColorBG::Blue => Color::Blue,
            ColorBG::Magenta => Color::Magenta,
            ColorBG::Cyan => Color::Cyan,
            ColorBG::White => Color::White,
            ColorBG::ID(id) => Color::ID(*id),
            ColorBG::RGB(r, g, b) => Color::RGB(*r, *g, *b),
        }
    }
}

impl super::PrintableStyle for ColorBG {
    open spec fn sequence(&self) -> Seq<char> {
        match self {
            ColorBG::Unset => Seq::empty(),
            ColorBG::Reset => "\x1b[49m"@,
            ColorBG::Black => "\x1b[40m"@,
            ColorBG::Red => "\x1b[41m"@,
            ColorBG::Green => "\x1b[42m"@,
            ColorBG::Yellow => "\x1b[43m"@,
            ColorBG::Blue => "\x1b[44m"@,
            ColorBG::Magenta => "\x1b[45m"@,
            ColorBG::Cyan => "\x1b[46m"@,
            ColorBG::White => "\x1b[47m"@,
            ColorBG::ID(id) => "\x1b[48;5;"@ + decimal(*id as nat) + "m"@,
            ColorBG::RGB(r, g, b) => "\x1b[48;2;"@ + decimal(*r as nat) + ";"@ + decimal(*g as nat)
                + ";"@ + decimal(*b as nat) + "m"@,
        }
    }

    fn print(&self) -> (sequence: String) {
        match self {
            ColorBG::Unset => String::new(),
            ColorBG::Reset => String::from_str("\x1b[49m"),
            ColorBG::Black => String::from_str("\x1b[40m"),
            ColorBG::Red => String::from_str("\x1b[41m"),
            ColorBG::Green => String::from_str("\x1b[42m"),
            ColorBG::Yellow => String::from_str("\x1b[43m"),
            ColorBG::Blue => String::from_str("\x1b[44m"),
            ColorBG::Magenta => String::from_str("\x1b[45m"),
            ColorBG::Cyan => String::from_str("\x1b[46m"),
            ColorBG::White => String::from_str("\x1b[47m"),
            ColorBG::ID(id) => {
                let mut sequence = String::from_str("\x1b[48;5;");
                push_decimal(&mut sequence, *id);
                sequence.append("m");
                sequence
            },
            ColorBG::RGB(r, g, b) => {
                let mut sequence = String::from_str("\x1b[48;2;");
                push_decimal(&mut sequence, *r);
                sequence.append(";");
                push_decimal(&mut sequence, *g);
                sequence.append(";");
                push_decimal(&mut sequence, *b);
                sequence.append("m");
                sequence
            },
        }
    }
}

/// Taking a color to the other layer and back gives the color.
pub proof fn lemma_color_round_trip(color: Color, background: ColorBG)
    ensures
        color.counterpart().counterpart() == color,
        background.counterpart().counterpart() == background,
{
}

} // verus!
