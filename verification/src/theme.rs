//! The colors of an application.

use crate::style::color::{Color, ColorBG};
use vstd::prelude::*;

verus! {

#[derive(Clone, Copy, PartialEq, Eq, Debug, Structural)]
pub struct Theme {
    pub fg: Color,
    pub fg_alt: Color,
    pub fg_focus: Color,
    pub bg: ColorBG,
    pub bg_alt: ColorBG,
    pub bg_focus: ColorBG,
    pub accent: Color,
    pub accent_alt: Color,
    pub border: Color,
    pub border_alt: Color,
    pub red: Color,
    pub green: Color,
    pub yellow: Color,
    pub blue: Color,
    pub magenta: Color,
    pub cyan: Color,
    pub white: Color,
}

impl Theme {
    /// The theme that an application starts with: light text on a dark
    /// background.
    pub open spec fn standard() -> Theme {
        Theme {
            fg: Color::ID(255),
            fg_alt: Color::ID(245),
            fg_focus: Color::ID(232),
            bg: ColorBG::ID(232),
            bg_alt: ColorBG::ID(233),
            bg_focus: ColorBG::ID(255),
            accent: Color::ID(255),
            accent_alt: Color::ID(245),
            border: Color::ID(250),
            border_alt: Color::ID(245),
            red: Color::Red,
            green: Color::Green,
            yellow: Color::Yellow,
            blue: Color::Blue,
            magenta: Color::Magenta,
            cyan: Color::Cyan,
            white: Color::White,
        }
    }

    pub fn new() -> (theme: Theme)
        ensures
            theme == Theme::standard(),
    {
        Theme {
            fg: Color::ID(255),
            fg_alt: Color::ID(245),
            fg_focus: Color::ID(232),
            bg: ColorBG::ID(232),
            bg_alt: ColorBG::ID(233),
            bg_focus: ColorBG::ID(255),
            accent: Color::ID(255),
            accent_alt: Color::ID(245),
            border: Color::ID(250),
            border_alt: Color::ID(245),
            red: Color::Red,
            green: Color::Green,
            yellow: Color::Yellow,
            blue: Color::Blue,
            magenta: Color::Magenta,
            cyan: Color::Cyan,
            white: Color::White,
        }
    }

    /// Themes are not read from files yet: this does nothing.
    pub fn from_file() {
    }
}

} // verus!
