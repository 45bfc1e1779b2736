//! The keys of the keyboard and their characters.

use crate::text::{push_char, push_decimal, decimal};
use vstd::prelude::*;
use vstd::std_specs::convert::{FromSpecImpl, IntoSpec};

verus! {

/// The keyboard protocol a terminal is asked to speak.
#[derive(Copy, Clone, PartialEq, Eq, Debug, Structural)]
pub enum Protocol {
    Default,
    Kitty,
}

impl Protocol {
    /// The control sequence that switches the terminal to the protocol.
    pub open spec fn activation(self) -> Seq<char> {
        match self {
            Protocol::Default => "\x1b[=0;1u"@,
            Protocol::Kitty => "\x1b[=15;1u"@,
        }
    }

    /// The control sequence to send to the terminal to switch it to the
    /// protocol.
    pub fn activate(&self) -> (sequence: String)
        ensures
            sequence@ == self.activation(),
    {
        match self {
            Protocol::Default => String::from_str("\x1b[=0;1u"),
            Protocol::Kitty => String::from_str("\x1b[=15;1u"),
        }
    }
}

#[derive(PartialEq, Eq, Clone, Copy, Debug, Structural)]
pub enum KeyState {
    Press,
    Repeat,
    Release,
}

impl KeyState {
    /// The state that the number `n` stands for in a key report: 1 is a
    /// press, 2 a repeat, 3 a release, and any other number a press.
    pub open spec fn of_number(n: int) -> KeyState {
        if n == 2 {
            KeyState::Repeat
        } else if n == 3 {
            KeyState::Release
        } else {
            KeyState::Press
        }
    }

    /// What is shown after a key in this state.
    pub open spec fn suffix(self) -> Seq<char> {
        match self {
            KeyState::Press => Seq::empty(),
            KeyState::Repeat => " (repeat)"@,
            KeyState::Release => " (release)"@,
        }
    }

    /// The state that the number `n` stands for in a key report.
    pub fn from_number(n: usize) -> (state: KeyState)
        ensures
            state == KeyState::of_number(n as int),
    {
        if n == 2 {
            KeyState::Repeat
        } else if n == 3 {
            KeyState::Release
        } else {
            KeyState::Press
        }
    }

    pub fn to_string(&self) -> (text: String)
        ensures
            text@ == self.suffix(),
    {
        match self {
            KeyState::Press => String::new(),
            KeyState::Repeat => String::from_str(" (repeat)"),
            KeyState::Release => String::from_str(" (release)"),
        }
    }
}

impl<T: Into<usize>> FromSpecImpl<T> for KeyState {
    open spec fn obeys_from_spec() -> bool {
        <T as IntoSpec<usize>>::obeys_into_spec()
    }

    open spec fn from_spec(n: T) -> KeyState {
        KeyState::of_number(n.into_spec() as int)
    }
}

impl<T: Into<usize>> From<T> for KeyState {
    fn from(n: T) -> (state: KeyState) {
        KeyState::from_number(n.into())
    }
}

#[allow(non_camel_case_types)]
#[derive(PartialEq, Eq, Clone, Copy, Debug, Structural)]
pub enum Key {
    // F(n) is sent as \x1b[n~ where n = [11..=15, 17..=21, 23..=24]
    // F1-F4 can also be sent as \x1bOP, \x1bOQ, \x1bOR, \x1bOS
    Function(u8),
    // Sent as escape sequences
    Up,  // \x1b[A or \x1bOA
    Down,  // \x1b[B or \x1bOB
    Right,  // \x1b[C or \x1bOC
    Left,  // \x1b[D or \x1bOD
    Home,  // \x1b[1~ or \x1b[H or \x1bOH
    Insert,  // \x1b[2~
    Delete,  // \x1b[3~
    End,  // \x1b[4~ or \x1b[F or \x1bOF
    PageUp,  // \x1b[5~
    PageDown,  // \x1b[6~
    // Control characters
    Escape,  // '\x1b'
    Backspace,  // '\x08' or '\x7f'
    Tab,  // '\t'
    Enter,  // '\n' or '\r'
    // Visible characters
    Space,  // ' '
    Excl,  // '!'
    DblQuote,  // '"'
    Hash,  // '#'
    Dollar,  // '$'
    Percent,  // '%'
    Amp,  // '&'
    SglQuote,  // '\''
    LParen,  // '('
    RParen,  // ')'
    Star,  // '*'
    Plus,  // '+'
    Comma,  // ','
    Minus,  // '-'
    Period,  // '.'
    Slash,  // '/'
    D0,  // '0'
    D1,  // '1'
    D2,  // '2'
    D3,  // '3'
    D4,  // '4'
    D5,  // '5'
    D6,  // '6'
    D7,  // '7'
    D8,  // '8'
    D9,  // '9'
    Colon,  // ':'
    Semicolon,  // ';'
    LThan,  // '<'
    Equals,  // '='
    GThan,  // '>'
    QMark,  // '?'
    At,  // '@'
    A,  // 'A'
    B,  // 'B'
    C,  // 'C'
    D,  // 'D'
    E,  // 'E'
    F,  // 'F'
    G,  // 'G'
    H,  // 'H'
    I,  // 'I'
    J,  // 'J'
    K,  // 'K'
    L,  // 'L'
    M,  // 'M'
    N,  // 'N'
    O,  // 'O'
    P,  // 'P'
    Q,  // 'Q'
    R,  // 'R'
    S,  // 'S'
    T,  // 'T'
    U,  // 'U'
    V,  // 'V'
    W,  // 'W'
    X,  // 'X'
    Y,  // 'Y'
    Z,  // 'Z'
    LBracket,  // '['
    BSlash,  // '\\'
    RBracket,  // ']'
    Caret,  // '^'
    Underscore,  // '_'
    Backtick,  // '`'
    a,  // 'a'
    b,  // 'b'
    c,  // 'c'
    d,  // 'd'
    e,  // 'e'
    f,  // 'f'
    g,  // 'g'
    h,  // 'h'
    i,  // 'i'
    j,  // 'j'
    k,  // 'k'
    l,  // 'l'
    m,  // 'm'
    n,  // 'n'
    o,  // 'o'
    p,  // 'p'
    q,  // 'q'
    r,  // 'r'
    s,  // 's'
    t,  // 't'
    u,  // 'u'
    v,  // 'v'
    w,  // 'w'
    x,  // 'x'
    y,  // 'y'
    z,  // 'z'
    LBrace,  // '{'
    Bar,  // '|'
    RBrace,  // '}'
    Tilde,  // '~'
}

/// The character that stands for `c` where several characters name one key:
/// delete stands for backspace, and carriage return for line feed.
pub open spec fn canonical_char(c: char) -> char {
    if c == '\x7f' {
        '\x08'
    } else if c == '\r' {
        '\n'
    } else {
        c
    }
}

impl Key {
    /// The character of the key, for the keys that have one.
    pub open spec fn char_of(self) -> Option<char> {
        match self {
            Key::Escape => Some('\x1B'),
            Key::Backspace => Some('\x08'),
            Key::Tab => Some('\t'),
            Key::Enter => Some('\n'),
            Key::Space => Some(' '),
            Key::Excl => Some('!'),
            Key::DblQuote => Some('"'),
            Key::Hash => Some('#'),
            Key::Dollar => Some('$'),
            Key::Percent => Some('%'),
            Key::Amp => Some('&'),
            Key::SglQuote => Some('\''),
            Key::LParen => Some('('),
            Key::RParen => Some(')'),
            Key::Star => Some('*'),
            Key::Plus => Some('+'),
            Key::Comma => Some(','),
            Key::Minus => Some('-'),
            Key::Period => Some('.'),
            Key::Slash => Some('/'),
            Key::D0 => Some('0'),
            Key::D1 => Some('1'),
            Key::D2 => Some('2'),
            Key::D3 => Some('3'),
            Key::D4 => Some('4'),
            Key::D5 => Some('5'),
            Key::D6 => Some('6'),
            Key::D7 => Some('7'),
            Key::D8 => Some('8'),
            Key::D9 => Some('9'),
            Key::Colon => Some(':'),
            Key::Semicolon => Some(';'),
            Key::LThan => Some('<'),
            Key::Equals => Some('='),
            Key::GThan => Some('>'),
            Key::QMark => Some('?'),
            Key::At => Some('@'),
            Key::A => Some('A'),
            Key::B => Some('B'),
            Key::C => Some('C'),
            Key::D => Some('D'),
            Key::E => Some('E'),
            Key::F => Some('F'),
            Key::G => Some('G'),
            Key::H => Some('H'),
            Key::I => Some('I'),
            Key::J => Some('J'),
            Key::K => Some('K'),
            Key::L => Some('L'),
            Key::M => Some('M'),
            Key::N => Some('N'),
            Key::O => Some('O'),
            Key::P => Some('P'),
            Key::Q => Some('Q'),
            Key::R => Some('R'),
            Key::S => Some('S'),
            Key::T => Some('T'),
            Key::U => Some('U'),
            Key::V => Some('V'),
            Key::W => Some('W'),
            Key::X => Some('X'),
            Key::Y => Some('Y'),
            Key::Z => Some('Z'),
            Key::LBracket => Some('['),
            Key::BSlash => Some('\\'),
            Key::RBracket => Some(']'),
            Key::Caret => Some('^'),
            Key::Underscore => Some('_'),
            Key::Backtick => Some('`'),
            Key::a => Some('a'),
            Key::b => Some('b'),
            Key::c => Some('c'),
            Key::d => Some('d'),
            Key::e => Some('e'),
            Key::f => Some('f'),
            Key::g => Some('g'),
            Key::h => Some('h'),
            Key::i => Some('i'),
            Key::j => Some('j'),
            Key::k => Some('k'),
            Key::l => Some('l'),
            Key::m => Some('m'),
            Key::n => Some('n'),
            Key::o => Some('o'),
            Key::p => Some('p'),
            Key::q => Some('q'),
            Key::r => Some('r'),
            Key::s => Some('s'),
            Key::t => Some('t'),
            Key::u => Some('u'),
            Key::v => Some('v'),
            Key::w => Some('w'),
            Key::x => Some('x'),
            Key::y => Some('y'),
            Key::z => Some('z'),
            Key::LBrace => Some('{'),
            Key::Bar => Some('|'),
            Key::RBrace => Some('}'),
            Key::Tilde => Some('~'),
            _ => None,
        }
    }

    /// The key of the character `c`, where there is one.
    pub open spec fn key_of(c: char) -> Option<Key> {
        match c {
            '\x1B' => Some(Key::Escape),
            '\x7f' | '\x08' => Some(Key::Backspace),
            '\t' => Some(Key::Tab),
            '\n' | '\r' => Some(Key::Enter),
            ' ' => Some(Key::Space),
            '!' => Some(Key::Excl),
            '"' => Some(Key::DblQuote),
            '#' => Some(Key::Hash),
            '$' => Some(Key::Dollar),
            '%' => Some(Key::Percent),
            '&' => Some(Key::Amp),
            '\'' => Some(Key::SglQuote),
            '(' => Some(Key::LParen),
            ')' => Some(Key::RParen),
            '*' => Some(Key::Star),
            '+' => Some(Key::Plus),
            ',' => Some(Key::Comma),
            '-' => Some(Key::Minus),
            '.' => Some(Key::Period),
            '/' => Some(Key::Slash),
            '0' => Some(Key::D0),
            '1' => Some(Key::D1),
            '2' => Some(Key::D2),
            '3' => Some(Key::D3),
            '4' => Some(Key::D4),
            '5' => Some(Key::D5),
            '6' => Some(Key::D6),
            '7' => Some(Key::D7),
            '8' => Some(Key::D8),
            '9' => Some(Key::D9),
            ':' => Some(Key::Colon),
            ';' => Some(Key::Semicolon),
            '<' => Some(Key::LThan),
            '=' => Some(Key::Equals),
            '>' => Some(Key::GThan),
            '?' => Some(Key::QMark),
            '@' => Some(Key::At),
            'A' => Some(Key::A),
            'B' => Some(Key::B),
            'C' => Some(Key::C),
            'D' => Some(Key::D),
            'E' => Some(Key::E),
            'F' => Some(Key::F),
            'G' => Some(Key::G),
            'H' => Some(Key::H),
            'I' => Some(Key::I),
            'J' => Some(Key::J),
            'K' => Some(Key::K),
            'L' => Some(Key::L),
            'M' => Some(Key::M),
            'N' => Some(Key::N),
            'O' => Some(Key::O),
            'P' => Some(Key::P),
            'Q' => Some(Key::Q),
            'R' => Some(Key::R),
            'S' => Some(Key::S),
            'T' => Some(Key::T),
            'U' => Some(Key::U),
            'V' => Some(Key::V),
            'W' => Some(Key::W),
            'X' => Some(Key::X),
            'Y' => Some(Key::Y),
            'Z' => Some(Key::Z),
            '[' => Some(Key::LBracket),
            '\\' => Some(Key::BSlash),
            ']' => Some(Key::RBracket),
            '^' => Some(Key::Caret),
            '_' => Some(Key::Underscore),
            '`' => Some(Key::Backtick),
            'a' => Some(Key::a),
            'b' => Some(Key::b),
            'c' => Some(Key::c),
            'd' => Some(Key::d),
            'e' => Some(Key::e),
            'f' => Some(Key::f),
            'g' => Some(Key::g),
            'h' => Some(Key::h),
            'i' => Some(Key::i),
            'j' => Some(Key::j),
            'k' => Some(Key::k),
            'l' => Some(Key::l),
            'm' => Some(Key::m),
            'n' => Some(Key::n),
            'o' => Some(Key::o),
            'p' => Some(Key::p),
            'q' => Some(Key::q),
            'r' => Some(Key::r),
            's' => Some(Key::s),
            't' => Some(Key::t),
            'u' => Some(Key::u),
            'v' => Some(Key::v),
            'w' => Some(Key::w),
            'x' => Some(Key::x),
            'y' => Some(Key::y),
            'z' => Some(Key::z),
            '{' => Some(Key::LBrace),
            '|' => Some(Key::Bar),
            '}' => Some(Key::RBrace),
            '~' => Some(Key::Tilde),
            _ => None,
        }
    }

    pub fn from_char(c: char) -> (key: Option<Key>)
        ensures
            key == Key::key_of(c),
    {
        match c {
            '\x1B' => Some(Key::Escape),
            '\x7f' | '\x08' => Some(Key::Backspace),
            '\t' => Some(Key::Tab),
            '\n' | '\r' => Some(Key::Enter),
            ' ' => Some(Key::Space),
            '!' => Some(Key::Excl),
            '"' => Some(Key::DblQuote),
            '#' => Some(Key::Hash),
            '$' => Some(Key::Dollar),
            '%' => Some(Key::Percent),
            '&' => Some(Key::Amp),
            '\'' => Some(Key::SglQuote),
            '(' => Some(Key::LParen),
            ')' => Some(Key::RParen),
            '*' => Some(Key::Star),
            '+' => Some(Key::Plus),
            ',' => Some(Key::Comma),
            '-' => Some(Key::Minus),
            '.' => Some(Key::Period),
            '/' => Some(Key::Slash),
            '0' => Some(Key::D0),
            '1' => Some(Key::D1),
            '2' => Some(Key::D2),
            '3' => Some(Key::D3),
            '4' => Some(Key::D4),
            '5' => Some(Key::D5),
            '6' => Some(Key::D6),
            '7' => Some(Key::D7),
            '8' => Some(Key::D8),
            '9' => Some(Key::D9),
            ':' => Some(Key::Colon),
            ';' => Some(Key::Semicolon),
            '<' => Some(Key::LThan),
            '=' => Some(Key::Equals),
            '>' => Some(Key::GThan),
            '?' => Some(Key::QMark),
            '@' => Some(Key::At),
            'A' => Some(Key::A),
            'B' => Some(Key::B),
            'C' => Some(Key::C),
            'D' => Some(Key::D),
            'E' => Some(Key::E),
            'F' => Some(Key::F),
            'G' => Some(Key::G),
            'H' => Some(Key::H),
            'I' => Some(Key::I),
            'J' => Some(Key::J),
            'K' => Some(Key::K),
            'L' => Some(Key::L),
            'M' => Some(Key::M),
            'N' => Some(Key::N),
            'O' => Some(Key::O),
            'P' => Some(Key::P),
            'Q' => Some(Key::Q),
            'R' => Some(Key::R),
            'S' => Some(Key::S),
            'T' => Some(Key::T),
            'U' => Some(Key::U),
            'V' => Some(Key::V),
            'W' => Some(Key::W),
            'X' => Some(Key::X),
            'Y' => Some(Key::Y),
            'Z' => Some(Key::Z),
            '[' => Some(Key::LBracket),
            '\\' => Some(Key::BSlash),
            ']' => Some(Key::RBracket),
            '^' => Some(Key::Caret),
            '_' => Some(Key::Underscore),
            '`' => Some(Key::Backtick),
            'a' => Some(Key::a),
            'b' => Some(Key::b),
            'c' => Some(Key::c),
            'd' => Some(Key::d),
            'e' => Some(Key::e),
            'f' => Some(Key::f),
            'g' => Some(Key::g),
            'h' => Some(Key::h),
            'i' => Some(Key::i),
            'j' => Some(Key::j),
            'k' => Some(Key::k),
            'l' => Some(Key::l),
            'm' => Some(Key::m),
            'n' => Some(Key::n),
            'o' => Some(Key::o),
            'p' => Some(Key::p),
            'q' => Some(Key::q),
            'r' => Some(Key::r),
            's' => Some(Key::s),
            't' => Some(Key::t),
            'u' => Some(Key::u),
            'v' => Some(Key::v),
            'w' => Some(Key::w),
            'x' => Some(Key::x),
            'y' => Some(Key::y),
            'z' => Some(Key::z),
            '{' => Some(Key::LBrace),
            '|' => Some(Key::Bar),
            '}' => Some(Key::RBrace),
            '~' => Some(Key::Tilde),
            _ => None,
        }
    }

    pub fn to_char(&self) -> (c: Option<char>)
        ensures
            c == self.char_of(),
    {
        match self {
            Key::Escape => Some('\x1B'),
            Key::Backspace => Some('\x08'),
            Key::Tab => Some('\t'),
            Key::Enter => Some('\n'),
            Key::Space => Some(' '),
            Key::Excl => Some('!'),
            Key::DblQuote => Some('"'),
            Key::Hash => Some('#'),
            Key::Dollar => Some('$'),
            Key::Percent => Some('%'),
            Key::Amp => Some('&'),
            Key::SglQuote => Some('\''),
            Key::LParen => Some('('),
            Key::RParen => Some(')'),
            Key::Star => Some('*'),
            Key::Plus => Some('+'),
            Key::Comma => Some(','),
            Key::Minus => Some('-'),
            Key::Period => Some('.'),
            Key::Slash => Some('/'),
            Key::D0 => Some('0'),
            Key::D1 => Some('1'),
            Key::D2 => Some('2'),
            Key::D3 => Some('3'),
            Key::D4 => Some('4'),
            Key::D5 => Some('5'),
            Key::D6 => Some('6'),
            Key::D7 => Some('7'),
            Key::D8 => Some('8'),
            Key::D9 => Some('9'),
            Key::Colon => Some(':'),
            Key::Semicolon => Some(';'),
            Key::LThan => Some('<'),
            Key::Equals => Some('='),
            Key::GThan => Some('>'),
            Key::QMark => Some('?'),
            Key::At => Some('@'),
            Key::A => Some('A'),
            Key::B => Some('B'),
            Key::C => Some('C'),
            Key::D => Some('D'),
            Key::E => Some('E'),
            Key::F => Some('F'),
            Key::G => Some('G'),
            Key::H => Some('H'),
            Key::I => Some('I'),
            Key::J => Some('J'),
            Key::K => Some('K'),
            Key::L => Some('L'),
            Key::M => Some('M'),
            Key::N => Some('N'),
            Key::O => Some('O'),
            Key::P => Some('P'),
            Key::Q => Some('Q'),
            Key::R => Some('R'),
            Key::S => Some('S'),
            Key::T => Some('T'),
            Key::U => Some('U'),
            Key::V => Some('V'),
            Key::W => Some('W'),
            Key::X => Some('X'),
            Key::Y => Some('Y'),
            Key::Z => Some('Z'),
            Key::LBracket => Some('['),
            Key::BSlash => Some('\\'),
            Key::RBracket => Some(']'),
            Key::Caret => Some('^'),
            Key::Underscore => Some('_'),
            Key::Backtick => Some('`'),
            Key::a => Some('a'),
            Key::b => Some('b'),
            Key::c => Some('c'),
            Key::d => Some('d'),
            Key::e => Some('e'),
            Key::f => Some('f'),
            Key::g => Some('g'),
            Key::h => Some('h'),
            Key::i => Some('i'),
            Key::j => Some('j'),
            Key::k => Some('k'),
            Key::l => Some('l'),
            Key::m => Some('m'),
            Key::n => Some('n'),
            Key::o => Some('o'),
            Key::p => Some('p'),
            Key::q => Some('q'),
            Key::r => Some('r'),
            Key::s => Some('s'),
            Key::t => Some('t'),
            Key::u => Some('u'),
            Key::v => Some('v'),
            Key::w => Some('w'),
            Key::x => Some('x'),
            Key::y => Some('y'),
            Key::z => Some('z'),
            Key::LBrace => Some('{'),
            Key::Bar => Some('|'),
            Key::RBrace => Some('}'),
            Key::Tilde => Some('~'),
            _ => None,
        }
    }

    /// The key as it is shown: a name for the keys that have no visible
    /// character, else the character.
    pub open spec fn label(self) -> Seq<char> {
        match self {
            Key::Function(n) => "F"@ + decimal(n as nat),
            Key::Left => "←"@,
            Key::Up => "↑"@,
            Key::Right => "→"@,
            Key::Down => "↓"@,
            Key::Home => "Home"@,
            Key::Insert => "Ins"@,
            Key::Delete => "Del"@,
            Key::End => "End"@,
            Key::PageUp => "PgUp"@,
            Key::PageDown => "PgDn"@,
            Key::Escape => "Esc"@,
            Key::Backspace => "Backspace"@,
            Key::Tab => "Tab"@,
            Key::Enter => "Enter"@,
            Key::Space => "Space"@,
            _ => match self.char_of() {
                Some(c) => seq![c],
                None => Seq::empty(),
            },
        }
    }

    pub fn to_string(&self) -> (text: String)
        ensures
            text@ == self.label(),
    {
        match *self {
            Key::Function(n) => {
                let mut text = String::from_str("F");
                push_decimal(&mut text, n as usize);
                text
            },
            Key::Left => String::from_str("←"),
            Key::Up => String::from_str("↑"),
            Key::Right => String::from_str("→"),
            Key::Down => String::from_str("↓"),
            Key::Home => String::from_str("Home"),
            Key::Insert => String::from_str("Ins"),
            Key::Delete => String::from_str("Del"),
            Key::End => String::from_str("End"),
            Key::PageUp => String::from_str("PgUp"),
            Key::PageDown => String::from_str("PgDn"),
            Key::Escape => String::from_str("Esc"),
            Key::Backspace => String::from_str("Backspace"),
            Key::Tab => String::from_str("Tab"),
            Key::Enter => String::from_str("Enter"),
            Key::Space => String::from_str("Space"),
            _ => {
                let mut text = String::new();
                if let Some(c) = self.to_char() {
                    push_char(&mut text, c);
                }
                assert(Seq::<char>::empty().push(self.char_of().unwrap()) =~= seq![
                    self.char_of().unwrap(),
                ]);
                text
            },
        }
    }
}

/// A key with a character is the key of that character.
pub proof fn lemma_key_round_trip(key: Key)
    requires
        key.char_of() is Some,
    ensures
        Key::key_of(key.char_of().unwrap()) == Some(key),
{
}

/// The key of a character has the character itself, or the one that stands
/// for it: backspace for delete, line feed for carriage return.
pub proof fn lemma_char_round_trip(c: char)
    requires
        Key::key_of(c) is Some,
    ensures
        Key::key_of(c).unwrap().char_of() == Some(canonical_char(c)),
        Key::key_of(canonical_char(c)) == Key::key_of(c),
{
}

} // verus!
