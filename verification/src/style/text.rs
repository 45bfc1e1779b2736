//! Styles of text.

use vstd::prelude::*;

verus! {

#[derive(Copy, Clone, PartialEq, Eq, Debug, Structural)]
pub enum TextStyle {
    Bold,
    Dim,
    Italic,
    Underline,
    Blinking,
    Inverse,
    Hidden,
    Strikethrough,
    NoBold,
    NoDim,
    NoItalic,
    NoUnderline,
    NoBlinking,
    NoInverse,
    NoHidden,
    NoStrikethrough,
}

impl super::PrintableStyle for TextStyle {
    open spec fn sequence(&self) -> Seq<char> {
        match self {
            TextStyle::Bold => "\x1b[1m"@,
            TextStyle::Dim => "\x1b[2m"@,
            TextStyle::Italic => "\x1b[3m"@,
            TextStyle::Underline => "\x1b[4m"@,
            TextStyle::Blinking => "\x1b[5m"@,
            TextStyle::Inverse => "\x1b[7m"@,
            TextStyle::Hidden => "\x1b[8m"@,
            TextStyle::Strikethrough => "\x1b[9m"@,
            TextStyle::NoBold => "\x1b[22m"@,
            TextStyle::NoDim => "\x1b[22m"@,
            TextStyle::NoItalic => "\x1b[23m"@,
            TextStyle::NoUnderline => "\x1b[24m"@,
            TextStyle::NoBlinking => "\x1b[25m"@,
            TextStyle::NoInverse => "\x1b[27m"@,
            TextStyle::NoHidden => "\x1b[28m"@,
            TextStyle::NoStrikethrough => "\x1b[29m"@,
        }
    }

    fn print(&self) -> (sequence: String) {
        match self {
            TextStyle::Bold => String::from_str("\x1b[1m"),
            TextStyle::Dim => String::from_str("\x1b[2m"),
            TextStyle::Italic => String::from_str("\x1b[3m"),
            TextStyle::Underline => String::from_str("\x1b[4m"),
            TextStyle::Blinking => String::from_str("\x1b[5m"),
            TextStyle::Inverse => String::from_str("\x1b[7m"),
            TextStyle::Hidden => String::from_str("\x1b[8m"),
            TextStyle::Strikethrough => String::from_str("\x1b[9m"),
            TextStyle::NoBold | TextStyle::NoDim => String::from_str("\x1b[22m"),
            TextStyle::NoItalic => String::from_str("\x1b[23m"),
            TextStyle::NoUnderline => String::from_str("\x1b[24m"),
            TextStyle::NoBlinking => String::from_str("\x1b[25m"),
            TextStyle::NoInverse => String::from_str("\x1b[27m"),
            TextStyle::NoHidden => String::from_str("\x1b[28m"),
            TextStyle::NoStrikethrough => String::from_str("\x1b[29m"),
        }
    }
}

} // verus!
