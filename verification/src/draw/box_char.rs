//! The box drawing characters.

use crate::text::push_char;
use vstd::prelude::*;

verus! {

/// The box drawing characters.
#[derive(Clone, Copy, PartialEq, Eq, Debug, Structural)]
pub enum BoxChar {
    // Light line box drawing characters
    LightH,  // '─' Horizontal
    LightV,  // '│' Vertical
    LightTL,  // '┌' Top-left corner
    LightTR,  // '┐' Top-right corner
    LightBL,  // '└' Bottom-left corner
    LightBR,  // '┘' Bottom-right corner
    LightCross,  // '┼' Cross (intersection)
    LightTJUp,  // '┬' T-junction up
    LightTJDown,  // '┴' T-junction down
    LightTJLeft,  // '├' T-junction left
    LightTJRight,  // '┤' T-junction right
    // Heavy line box drawing characters
    HeavyH,  // '━' Horizontal
    HeavyV,  // '┃' Vertical
    HeavyTL,  // '┏' Top-left corner
    HeavyTR,  // '┓' Top-right corner
    HeavyBL,  // '┗' Bottom-left corner
    HeavyBR,  // '┛' Bottom-right corner
    HeavyCross,  // '╋' Cross (intersection)
    HeavyTJUp,  // '┳' T-junction up
    HeavyTJDown,  // '┻' T-junction down
    HeavyTJLeft,  // '┣' T-junction left
    HeavyTJRight,  // '┫' T-junction right
    // Double-line box drawing characters
    DoubleH,  // '═' Horizontal
    DoubleV,  // '║' Vertical
    DoubleTL,  // '╔' Top-left corner
    DoubleTR,  // '╗' Top-right corner
    DoubleBL,  // '╚' Bottom-left corner
    DoubleBR,  // '╝' Bottom-right corner
    DoubleCross,  // '╬' Cross (intersection)
    DoubleTJUp,  // '╦' T-junction up
    DoubleTJDown,  // '╩' T-junction down
    DoubleTJLeft,  // '╠' T-junction left
    DoubleTJRight,  // '╣' T-junction right
    // Arcs
    ArcTL,  // '╭' Top-left arc
    ArcTR,  // '╮' Top-right arc
    ArcBL,  // '╰' Bottom-left arc
    ArcBR,  // '╯' Bottom-right arc
    // Diagonal lines
    DiagonalLR,  // '╱' Diagonal left-to-right
    DiagonalRL,  // '╲' Diagonal right-to-left
    CrossDiagonal,  // '╳' Crossed diagonals
}

impl BoxChar {
    /// The Unicode code point of the character.
    pub open spec fn code_point_of(self) -> u32 {
        match self {
            BoxChar::LightH => 0x2500,
            BoxChar::LightV => 0x2502,
            BoxChar::LightTL => 0x250C,
            BoxChar::LightTR => 0x2510,
            BoxChar::LightBL => 0x2514,
            BoxChar::LightBR => 0x2518,
            BoxChar::LightCross => 0x253C,
            BoxChar::LightTJUp => 0x252C,
            BoxChar::LightTJDown => 0x2534,
            BoxChar::LightTJLeft => 0x251C,
            BoxChar::LightTJRight => 0x2524,
            BoxChar::HeavyH => 0x2501,
            BoxChar::HeavyV => 0x2503,
            BoxChar::HeavyTL => 0x250F,
            BoxChar::HeavyTR => 0x2513,
            BoxChar::HeavyBL => 0x2517,
            BoxChar::HeavyBR => 0x251B,
            BoxChar::HeavyCross => 0x254B,
            BoxChar::HeavyTJUp => 0x2533,
            BoxChar::HeavyTJDown => 0x253B,
            BoxChar::HeavyTJLeft => 0x2523,
            BoxChar::HeavyTJRight => 0x252B,
            BoxChar::DoubleH => 0x2550,
            BoxChar::DoubleV => 0x2551,
            BoxChar::DoubleTL => 0x2554,
            BoxChar::DoubleTR => 0x2557,
            BoxChar::DoubleBL => 0x255A,
            BoxChar::DoubleBR => 0x255D,
            BoxChar::DoubleCross => 0x256C,
            BoxChar::DoubleTJUp => 0x2566,
            BoxChar::DoubleTJDown => 0x2569,
            BoxChar::DoubleTJLeft => 0x2560,
            BoxChar::DoubleTJRight => 0x2563,
            BoxChar::ArcTL => 0x256D,
            BoxChar::ArcTR => 0x256E,
            BoxChar::ArcBL => 0x2570,
            BoxChar::ArcBR => 0x256F,
            BoxChar::DiagonalLR => 0x2571,
            BoxChar::DiagonalRL => 0x2572,
            BoxChar::CrossDiagonal => 0x2573,
        }
    }

    /// The character.
    pub open spec fn glyph(self) -> char {
        match self {
            BoxChar::LightH => '─',
            BoxChar::LightV => '│',
            BoxChar::LightTL => '┌',
            BoxChar::LightTR => '┐',
            BoxChar::LightBL => '└',
            BoxChar::LightBR => '┘',
            BoxChar::LightCross => '┼',
            BoxChar::LightTJUp => '┬',
            BoxChar::LightTJDown => '┴',
            BoxChar::LightTJLeft => '├',
            BoxChar::LightTJRight => '┤',
            BoxChar::HeavyH => '━',
            BoxChar::HeavyV => '┃',
            BoxChar::HeavyTL => '┏',
            BoxChar::HeavyTR => '┓',
            BoxChar::HeavyBL => '┗',
            BoxChar::HeavyBR => '┛',
            BoxChar::HeavyCross => '╋',
            BoxChar::HeavyTJUp => '┳',
            BoxChar::HeavyTJDown => '┻',
            BoxChar::HeavyTJLeft => '┣',
            BoxChar::HeavyTJRight => '┫',
            BoxChar::DoubleH => '═',
            BoxChar::DoubleV => '║',
            BoxChar::DoubleTL => '╔',
            BoxChar::DoubleTR => '╗',
            BoxChar::DoubleBL => '╚',
            BoxChar::DoubleBR => '╝',
            BoxChar::DoubleCross => '╬',
            BoxChar::DoubleTJUp => '╦',
            BoxChar::DoubleTJDown => '╩',
            BoxChar::DoubleTJLeft => '╠',
            BoxChar::DoubleTJRight => '╣',
            BoxChar::ArcTL => '╭',
            BoxChar::ArcTR => '╮',
            BoxChar::ArcBL => '╰',
            BoxChar::ArcBR => '╯',
            BoxChar::DiagonalLR => '╱',
            BoxChar::DiagonalRL => '╲',
            BoxChar::CrossDiagonal => '╳',
        }
    }

    /// The Unicode code point of the character.
    pub fn code_point(&self) -> (code: u32)
        ensures
            code == self.code_point_of(),
    {
        match self {
            BoxChar::LightH => 0x2500,
            BoxChar::LightV => 0x2502,
            BoxChar::LightTL => 0x250C,
            BoxChar::LightTR => 0x2510,
            BoxChar::LightBL => 0x2514,
            BoxChar::LightBR => 0x2518,
            BoxChar::LightCross => 0x253C,
            BoxChar::LightTJUp => 0x252C,
            BoxChar::LightTJDown => 0x2534,
            BoxChar::LightTJLeft => 0x251C,
            BoxChar::LightTJRight => 0x2524,
            BoxChar::HeavyH => 0x2501,
            BoxChar::HeavyV => 0x2503,
            BoxChar::HeavyTL => 0x250F,
            BoxChar::HeavyTR => 0x2513,
            BoxChar::HeavyBL => 0x2517,
            BoxChar::HeavyBR => 0x251B,
            BoxChar::HeavyCross => 0x254B,
            BoxChar::HeavyTJUp => 0x2533,
            BoxChar::HeavyTJDown => 0x253B,
            BoxChar::HeavyTJLeft => 0x2523,
            BoxChar::HeavyTJRight => 0x252B,
            BoxChar::DoubleH => 0x2550,
            BoxChar::DoubleV => 0x2551,
            BoxChar::DoubleTL => 0x2554,
            BoxChar::DoubleTR => 0x2557,
            BoxChar::DoubleBL => 0x255A,
            BoxChar::DoubleBR => 0x255D,
            BoxChar::DoubleCross => 0x256C,
            BoxChar::DoubleTJUp => 0x2566,
            BoxChar::DoubleTJDown => 0x2569,
            BoxChar::DoubleTJLeft => 0x2560,
            BoxChar::DoubleTJRight => 0x2563,
            BoxChar::ArcTL => 0x256D,
            BoxChar::ArcTR => 0x256E,
            BoxChar::ArcBL => 0x2570,
            BoxChar::ArcBR => 0x256F,
            BoxChar::DiagonalLR => 0x2571,
            BoxChar::DiagonalRL => 0x2572,
            BoxChar::CrossDiagonal => 0x2573,
        }
    }

    pub fn to_char(&self) -> (c: char)
        ensures
            c == self.glyph(),
    {
        match self {
            BoxChar::LightH => '─',
            BoxChar::LightV => '│',
            BoxChar::LightTL => '┌',
            BoxChar::LightTR => '┐',
            BoxChar::LightBL => '└',
            BoxChar::LightBR => '┘',
            BoxChar::LightCross => '┼',
            BoxChar::LightTJUp => '┬',
            BoxChar::LightTJDown => '┴',
            BoxChar::LightTJLeft => '├',
            BoxChar::LightTJRight => '┤',
            BoxChar::HeavyH => '━',
            BoxChar::HeavyV => '┃',
            BoxChar::HeavyTL => '┏',
            BoxChar::HeavyTR => '┓',
            BoxChar::HeavyBL => '┗',
            BoxChar::HeavyBR => '┛',
            BoxChar::HeavyCross => '╋',
            BoxChar::HeavyTJUp => '┳',
            BoxChar::HeavyTJDown => '┻',
            BoxChar::HeavyTJLeft => '┣',
            BoxChar::HeavyTJRight => '┫',
            BoxChar::DoubleH => '═',
            BoxChar::DoubleV => '║',
            BoxChar::DoubleTL => '╔',
            BoxChar::DoubleTR => '╗',
            BoxChar::DoubleBL => '╚',
            BoxChar::DoubleBR => '╝',
            BoxChar::DoubleCross => '╬',
            BoxChar::DoubleTJUp => '╦',
            BoxChar::DoubleTJDown => '╩',
            BoxChar::DoubleTJLeft => '╠',
            BoxChar::DoubleTJRight => '╣',
            BoxChar::ArcTL => '╭',
            BoxChar::ArcTR => '╮',
            BoxChar::ArcBL => '╰',
            BoxChar::ArcBR => '╯',
            BoxChar::DiagonalLR => '╱',
            BoxChar::DiagonalRL => '╲',
            BoxChar::CrossDiagonal => '╳',
        }
    }

    pub fn to_string(&self) -> (text: String)
        ensures
            text@ == seq![self.glyph()],
    {
        let mut text = String::new();
        push_char(&mut text, self.to_char());
        assert(text@ =~= seq![self.glyph()]);
        text
    }
}

/// Each box drawing character is the character of its code point, and no
/// two of them are the same.
pub proof fn lemma_box_chars(a: BoxChar, b: BoxChar)
    ensures
        a.glyph() as u32 == a.code_point_of(),
        a.glyph() == b.glyph() ==> a == b,
{
}

} // verus!
