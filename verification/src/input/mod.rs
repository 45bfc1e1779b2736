//! Input events, and the decoder that makes them from the bytes a terminal
//! in raw mode sends: single bytes and control codes, the escape sequences
//! of xterm, and the key and mouse reports of the Kitty protocol and of SGR
//! mouse mode.

pub mod binds;
pub mod key;
pub mod mask;
pub mod modifier;
pub mod mouse;
pub mod params;

use crate::unit::{Point, Unit};
use key::{Key, KeyState};
use mask::Mask;
use modifier::{joined_names, same_members, unmask_seq, Modifier, ModifierList};
use mouse::{Mouse, MouseState};
use params::{find_byte, number, numbers, parse_number, parse_numbers, piece_end};
use vstd::prelude::*;
use vstd::slice::slice_subrange;
use vstd::std_specs::convert::FromSpecImpl;
use vstd::utf8::valid_utf8;

verus! {

#[derive(PartialEq, Debug)]
pub enum Input {
    Key(Key, KeyState, ModifierList),
    Mouse(Mouse, MouseState, ModifierList, Point),
}

impl Clone for Input {
    fn clone(&self) -> (copy: Input)
        ensures
            copy@ == self@,
    {
        match self {
            Input::Key(key, state, mods) => Input::Key(*key, *state, mods.clone()),
            Input::Mouse(button, state, mods, at) => Input::Mouse(
                *button,
                *state,
                mods.clone(),
                *at,
            ),
        }
    }
}

/// An input event with its modifiers as a sequence.
pub enum InputView {
    Key(Key, KeyState, Seq<Modifier>),
    Mouse(Mouse, MouseState, Seq<Modifier>, Point),
}

impl View for Input {
    type V = InputView;

    open spec fn view(&self) -> InputView {
        match *self {
            Input::Key(key, state, mods) => InputView::Key(key, state, mods@),
            Input::Mouse(button, state, mods, at) => InputView::Mouse(button, state, mods@, at),
        }
    }
}

/// Why a buffer that has the shape of an escape sequence was not decoded.
/// Such a buffer comes from a terminal that this decoder does not support.
#[derive(Copy, Clone, PartialEq, Eq, Debug, Structural)]
pub enum DecodeError {
    /// The number or letter of a function-key sequence names no key.
    UnknownSequence,
    /// A parameter that has to be a number is none, or the parameters are
    /// not UTF-8 text.
    MalformedParameter,
}

pub const ESC: u8 = 0x1b;

pub const CSI_OPEN: u8 = 0x5b;

pub const SS3_OPEN: u8 = 0x4f;

pub const TILDE: u8 = 0x7e;

pub const KITTY_END: u8 = 0x75;

pub const MOUSE_PRESS_END: u8 = 0x4d;

pub const MOUSE_RELEASE_END: u8 = 0x6d;

pub const MOUSE_OPEN: u8 = 0x3c;

pub const SEMICOLON: u8 = 0x3b;

pub const COLON: u8 = 0x3a;

/// The view of what the decoder returns.
pub open spec fn decoded_view(r: Result<Option<Input>, DecodeError>) -> Result<
    Option<InputView>,
    DecodeError,
> {
    match r {
        Ok(Some(input)) => Ok(Some(input@)),
        Ok(None) => Ok(None),
        Err(e) => Err(e),
    }
}

/// The view of an event that may be missing.
pub open spec fn option_view(input: Option<Input>) -> Option<InputView> {
    match input {
        Some(input) => Some(input@),
        None => None,
    }
}

/// A press of `key` with no modifier.
pub open spec fn plain_press(key: Key) -> InputView {
    InputView::Key(key, KeyState::Press, Seq::empty())
}

/// Whether the byte by itself is a key: escape, backspace, delete, tab, line
/// feed, carriage return, or a printable ASCII character.
pub open spec fn is_plain_key_byte(b: u8) -> bool {
    b == 0x1b || b == 0x08 || b == 0x09 || b == 0x0a || b == 0x0d || 0x20 <= b <= 0x7f
}

/// The event of a buffer that starts with a byte other than the start of an
/// escape sequence. A byte that is a key by itself is a press of that key;
/// one from 0x01 to 0x1a that is not is Ctrl with the letter that lies 0x60
/// above it; any other byte is no event.
pub open spec fn single_byte(b: u8) -> Option<InputView> {
    if is_plain_key_byte(b) {
        match Key::key_of(b as char) {
            Some(key) => Some(plain_press(key)),
            None => None,
        }
    } else if 0x01 <= b <= 0x1a {
        match Key::key_of(((b + 0x60) as u8) as char) {
            Some(key) => Some(InputView::Key(key, KeyState::Press, seq![Modifier::Ctrl])),
            None => None,
        }
    } else {
        None
    }
}

/// The event of an escape byte followed by the one byte `b`: where `b` by
/// itself is a press of a key without modifiers, that key with Alt.
pub open spec fn alt_key(b: u8) -> Option<InputView> {
    match single_byte(b) {
        Some(InputView::Key(key, KeyState::Press, mods)) => if mods.len() == 0 {
            Some(InputView::Key(key, KeyState::Press, seq![Modifier::Alt]))
        } else {
            None
        },
        _ => None,
    }
}

/// The key that the final byte of a short escape sequence names: an arrow,
/// Home, End, or one of F1 to F4.
pub open spec fn final_byte_key(b: u8) -> Option<Key> {
    if b == 0x41 {
        Some(Key::Up)
    } else if b == 0x42 {
        Some(Key::Down)
    } else if b == 0x43 {
        Some(Key::Right)
    } else if b == 0x44 {
        Some(Key::Left)
    } else if b == 0x48 {
        Some(Key::Home)
    } else if b == 0x46 {
        Some(Key::End)
    } else if 0x50 <= b <= 0x53 {
        Some(Key::Function((b - 0x4f) as u8))
    } else {
        None
    }
}

/// The event of `ESC [` followed by `b`, where the sequence has none of the
/// longer shapes: a key named by its final byte, or Shift with Tab for `Z`.
pub open spec fn csi_suffix(b: u8) -> Option<InputView> {
    match final_byte_key(b) {
        Some(key) => Some(plain_press(key)),
        None => if b == 0x5a {
            Some(InputView::Key(Key::Tab, KeyState::Press, seq![Modifier::Shift]))
        } else {
            None
        },
    }
}

/// The event of `ESC O` followed by `b`. A byte that names no key is an
/// error.
pub open spec fn ss3(b: u8) -> Result<Option<InputView>, DecodeError> {
    match final_byte_key(b) {
        Some(key) => Ok(Some(plain_press(key))),
        None => Err(DecodeError::UnknownSequence),
    }
}

/// The key with the number `n` in a sequence that ends in a tilde.
pub open spec fn tilde_key(n: int) -> Option<Key> {
    if n == 1 {
        Some(Key::Home)
    } else if n == 2 {
        Some(Key::Insert)
    } else if n == 3 {
        Some(Key::Delete)
    } else if n == 4 {
        Some(Key::End)
    } else if n == 5 {
        Some(Key::PageUp)
    } else if n == 6 {
        Some(Key::PageDown)
    } else if 11 <= n <= 15 {
        Some(Key::Function((n - 10) as u8))
    } else if 17 <= n <= 21 {
        Some(Key::Function((n - 11) as u8))
    } else if 23 <= n <= 24 {
        Some(Key::Function((n - 12) as u8))
    } else {
        None
    }
}

/// The event of `ESC [`, the bytes `d1` and `d2`, and further on a final
/// tilde. The number of the key is the digit `d1`, or the two digits `d1`
/// and `d2` where `d2` is a digit too. It is an error where `d1` is no
/// digit and where the number names no key.
pub open spec fn tilde(d1: u8, d2: u8) -> Result<Option<InputView>, DecodeError> {
    if !params::is_digit(d1) {
        Err(DecodeError::MalformedParameter)
    } else {
        let n = if params::is_digit(d2) {
            (d1 - 0x30) * 10 + (d2 - 0x30)
        } else {
            d1 - 0x30
        };
        match tilde_key(n) {
            Some(key) => Ok(Some(plain_press(key))),
            None => Err(DecodeError::UnknownSequence),
        }
    }
}

/// The key of a key code: the code has to be a number that, as a byte, is a
/// key by itself.
pub open spec fn code_key(code: Option<int>) -> Option<Key> {
    match code {
        Some(code) => if is_plain_key_byte(code as u8) {
            Key::key_of((code as u8) as char)
        } else {
            None
        },
        None => None,
    }
}

/// The key of the first parameter of a Kitty key report, which `s` holds
/// from `from` up to `to`: the key of the code before the first colon, or
/// else the key of the alternate code, which is all that follows that colon.
pub open spec fn kitty_key(s: Seq<u8>, from: int, to: int) -> Option<Key> {
    let colon = piece_end(s, from, to, COLON);
    match code_key(number(s, from, colon, 255)) {
        Some(key) => Some(key),
        None => if colon < to {
            code_key(number(s, colon + 1, to, 255))
        } else {
            None
        },
    }
}

/// The modifiers and the state of the second parameter of a Kitty key
/// report, which `s` holds from `from` up to `to`: a modifier mask, then
/// after a colon the number of the state, which is a press where it is
/// missing. What follows a second colon is ignored. It is an error where
/// the mask is no number that fits `usize` or the state no number up to 255.
pub open spec fn kitty_state(s: Seq<u8>, from: int, to: int) -> Result<
    (Seq<Modifier>, KeyState),
    DecodeError,
> {
    let colon = piece_end(s, from, to, COLON);
    match number(s, from, colon, usize::MAX as int) {
        None => Err(DecodeError::MalformedParameter),
        Some(mask) => if colon >= to {
            Ok((unmask_seq(mask as usize), KeyState::Press))
        } else {
            match number(s, colon + 1, piece_end(s, colon + 1, to, COLON), 255) {
                None => Err(DecodeError::MalformedParameter),
                Some(n) => Ok((unmask_seq(mask as usize), KeyState::of_number(n))),
            }
        },
    }
}

/// The event of a Kitty key report: a buffer that starts with `ESC [` and
/// ends in `u`. Its parameters are the bytes up to the first `u`, parted by
/// semicolons: the key first, then the modifiers and the state, which are
/// none and a press where that parameter is missing. Further parameters are
/// ignored. A key code that names no key gives no event.
pub open spec fn kitty(buf: Seq<u8>) -> Result<Option<InputView>, DecodeError> {
    if !valid_utf8(buf.subrange(2, buf.len() as int)) {
        Err(DecodeError::MalformedParameter)
    } else {
        let end = piece_end(buf, 2, buf.len() as int, KITTY_END);
        let semi = piece_end(buf, 2, end, SEMICOLON);
        let info = if semi < end {
            kitty_state(buf, semi + 1, piece_end(buf, semi + 1, end, SEMICOLON))
        } else {
            Ok((Seq::empty(), KeyState::Press))
        };
        match info {
            Err(e) => Err(e),
            Ok((mods, state)) => match kitty_key(buf, 2, semi) {
                Some(key) => Ok(Some(InputView::Key(key, state, mods))),
                None => Ok(None),
            },
        }
    }
}

/// The event of an SGR mouse report: a buffer that starts with `ESC [ <`
/// and ends in `M` or `m`. Its parameters are the bytes up to the first
/// occurrence of that final byte, parted by semicolons; each has to be a
/// number. Three of them are the mask, the column and the row, counted from
/// 1; any other count gives no event. A final `m` makes the state a release.
pub open spec fn mouse(buf: Seq<u8>) -> Result<Option<InputView>, DecodeError> {
    let last = buf[buf.len() - 1];
    if !valid_utf8(buf.subrange(3, buf.len() as int)) {
        Err(DecodeError::MalformedParameter)
    } else {
        let end = piece_end(buf, 3, buf.len() as int, last);
        match numbers(buf, 3, end, SEMICOLON) {
            None => Err(DecodeError::MalformedParameter),
            Some(fields) => if fields.len() == 3 {
                Ok(
                    Some(
                        InputView::Mouse(
                            Mouse::button_of(fields[0]),
                            if last == MOUSE_RELEASE_END {
                                MouseState::Release
                            } else {
                                Mouse::state_of(fields[0])
                            },
                            Mouse::modifiers_of(fields[0]),
                            Point { x: Unit::CoR(fields[1]), y: Unit::CoR(fields[2]) },
                        ),
                    ),
                )
            } else {
                Ok(None)
            },
        }
    }
}

/// The event of a buffer of more than two bytes that starts with `ESC [`.
pub open spec fn csi(buf: Seq<u8>) -> Result<Option<InputView>, DecodeError> {
    let last = buf[buf.len() - 1];
    if last == TILDE && buf.len() > 3 {
        tilde(buf[2], buf[3])
    } else if last == KITTY_END {
        kitty(buf)
    } else if (last == MOUSE_PRESS_END || last == MOUSE_RELEASE_END) && buf[2] == MOUSE_OPEN {
        mouse(buf)
    } else {
        Ok(csi_suffix(buf[2]))
    }
}

/// What a buffer of bytes read from the terminal decodes to: an event, no
/// event, or an error for a buffer that has the shape of an escape sequence
/// but not its content.
pub open spec fn decode_spec(buf: Seq<u8>) -> Result<Option<InputView>, DecodeError> {
    if buf.len() == 0 {
        Ok(None)
    } else if buf[0] == ESC && buf.len() == 2 {
        Ok(alt_key(buf[1]))
    } else if buf[0] == ESC && buf.len() > 2 {
        if buf[1] == CSI_OPEN {
            csi(buf)
        } else if buf[1] == SS3_OPEN {
            ss3(buf[2])
        } else {
            Ok(None)
        }
    } else {
        Ok(single_byte(buf[0]))
    }
}

/// Bytes below 0x80 are well-formed UTF-8: a report that holds digits and
/// separators only passes the decoder's test of its text.
pub proof fn lemma_ascii_is_utf8(bytes: Seq<u8>)
    requires
        forall|i: int| 0 <= i < bytes.len() ==> bytes[i] < 0x80,
    ensures
        valid_utf8(bytes),
{
    assert(bytes.subrange(0, 0) =~= Seq::<u8>::empty());
    assert(vstd::utf8::partial_valid_utf8(bytes, 0));
    vstd::utf8::partial_valid_utf8_extend_ascii_block(bytes, 0, bytes.len() as int);
    assert(bytes.subrange(0, bytes.len() as int) =~= bytes);
}

/// `core::str::from_utf8` returns `Ok` exactly for a slice that is
/// well-formed UTF-8.
#[verifier::external_body]
fn is_utf8(bytes: &[u8]) -> (ok: bool)
    ensures
        ok == valid_utf8(bytes@),
{
    core::str::from_utf8(bytes).is_ok()
}

fn press(key: Key) -> (input: Input)
    ensures
        input@ == plain_press(key),
{
    Input::Key(key, KeyState::Press, ModifierList(Vec::new()))
}

fn press_with(key: Key, m: Modifier) -> (input: Input)
    ensures
        input@ == InputView::Key(key, KeyState::Press, seq![m]),
{
    let mut mods: Vec<Modifier> = Vec::new();
    mods.push(m);
    assert(mods@ =~= seq![m]);
    Input::Key(key, KeyState::Press, ModifierList(mods))
}

fn is_plain(b: u8) -> (plain: bool)
    ensures
        plain == is_plain_key_byte(b),
{
    b == 0x1b || b == 0x08 || b == 0x09 || b == 0x0a || b == 0x0d || (0x20 <= b && b <= 0x7f)
}

fn decode_single(b: u8) -> (input: Option<Input>)
    ensures
        option_view(input) == single_byte(b),
{
    if is_plain(b) {
        // Keys sent in a single character
        match Key::from_char(b as char) {
            Some(key) => Some(press(key)),
            None => None,
        }
    } else if 0x01 <= b && b <= 0x1a {
        // Key with control
        match Key::from_char((b + 0x60) as char) {
            Some(key) => Some(press_with(key, Modifier::Ctrl)),
            None => None,
        }
    } else {
        None
    }
}

fn decode_alt(b: u8) -> (input: Option<Input>)
    ensures
        option_view(input) == alt_key(b),
{
    match decode_single(b) {
        Some(Input::Key(key, KeyState::Press, mods)) => {
            if mods.0.len() == 0 {
                Some(press_with(key, Modifier::Alt))
            } else {
                None
            }
        },
        _ => None,
    }
}

fn final_key(b: u8) -> (key: Option<Key>)
    ensures
        key == final_byte_key(b),
{
    if b == 0x41 {
        Some(Key::Up)
    } else if b == 0x42 {
        Some(Key::Down)
    } else if b == 0x43 {
        Some(Key::Right)
    } else if b == 0x44 {
        Some(Key::Left)
    } else if b == 0x48 {
        Some(Key::Home)
    } else if b == 0x46 {
        Some(Key::End)
    } else if 0x50 <= b && b <= 0x53 {
        Some(Key::Function(b - 0x4f))
    } else {
        None
    }
}

fn decode_tilde(d1: u8, d2: u8) -> (r: Result<Option<Input>, DecodeError>)
    ensures
        decoded_view(r) == tilde(d1, d2),
{
    if d1 < 0x30 || d1 > 0x39 {
        return Err(DecodeError::MalformedParameter);
    }
    let n: u8 = if 0x30 <= d2 && d2 <= 0x39 {
        (d1 - 0x30) * 10 + (d2 - 0x30)
    } else {
        d1 - 0x30
    };
    let key = if n == 1 {
        Key::Home
    } else if n == 2 {
        Key::Insert
    } else if n == 3 {
        Key::Delete
    } else if n == 4 {
        Key::End
    } else if n == 5 {
        Key::PageUp
    } else if n == 6 {
        Key::PageDown
    } else if 11 <= n && n <= 15 {
        Key::Function(n - 10)
    } else if 17 <= n && n <= 21 {
        Key::Function(n - 11)
    } else if 23 <= n && n <= 24 {
        Key::Function(n - 12)
    } else {
        return Err(DecodeError::UnknownSequence);
    };
    Ok(Some(press(key)))
}

fn key_of_code(code: Option<usize>) -> (key: Option<Key>)
    requires
        code is Some ==> code.unwrap() <= 255,
    ensures
        key == code_key(
            match code {
                Some(c) => Some(c as int),
                None => None,
            },
        ),
{
    match code {
        Some(code) => {
            let b = code as u8;
            if is_plain(b) {
                Key::from_char(b as char)
            } else {
                None
            }
        },
        None => None,
    }
}

fn decode_kitty_key(buf: &[u8], from: usize, to: usize) -> (key: Option<Key>)
    requires
        from <= to <= buf@.len(),
    ensures
        key == kitty_key(buf@, from as int, to as int),
{
    let colon = find_byte(buf, from, to, COLON);
    match key_of_code(parse_number(buf, from, colon, 255)) {
        Some(key) => Some(key),
        None => {
            if colon < to {
                key_of_code(parse_number(buf, colon + 1, to, 255))
            } else {
                None
            }
        },
    }
}

fn decode_kitty_state(buf: &[u8], from: usize, to: usize) -> (r: Result<
    (ModifierList, KeyState),
    DecodeError,
>)
    requires
        from <= to <= buf@.len(),
    ensures
        match r {
            Ok((mods, state)) => kitty_state(buf@, from as int, to as int) == Ok::<
                (Seq<Modifier>, KeyState),
                DecodeError,
            >((mods@, state)),
            Err(e) => kitty_state(buf@, from as int, to as int) == Err::<
                (Seq<Modifier>, KeyState),
                DecodeError,
            >(e),
        },
{
    let colon = find_byte(buf, from, to, COLON);
    match parse_number(buf, from, colon, usize::MAX) {
        None => Err(DecodeError::MalformedParameter),
        Some(mask) => {
            if colon >= to {
                Ok((ModifierList::unmask(mask), KeyState::Press))
            } else {
                let colon2 = find_byte(buf, colon + 1, to, COLON);
                match parse_number(buf, colon + 1, colon2, 255) {
                    None => Err(DecodeError::MalformedParameter),
                    Some(n) => Ok((ModifierList::unmask(mask), KeyState::from_number(n))),
                }
            }
        },
    }
}

// Kitty keyboard protocol
// Sent as \x1b[key_code:alt_key_code;modifier_mask:event_typeu
fn decode_kitty(buf: &[u8]) -> (r: Result<Option<Input>, DecodeError>)
    requires
        buf@.len() > 2,
    ensures
        decoded_view(r) == kitty(buf@),
{
    let len = buf.len();
    if !is_utf8(slice_subrange(buf, 2, len)) {
        return Err(DecodeError::MalformedParameter);
    }
    let end = find_byte(buf, 2, len, KITTY_END);
    let semi = find_byte(buf, 2, end, SEMICOLON);
    let (mods, state) = if semi < end {
        let info_end = find_byte(buf, semi + 1, end, SEMICOLON);
        match decode_kitty_state(buf, semi + 1, info_end) {
            Err(e) => {
                return Err(e);
            },
            Ok(info) => info,
        }
    } else {
        (ModifierList(Vec::new()), KeyState::Press)
    };
    match decode_kitty_key(buf, 2, semi) {
        Some(key) => Ok(Some(Input::Key(key, state, mods))),
        None => Ok(None),
    }
}

// Mouse Input (digits format)
// Sent as \x1b[<button;col;rowM or \x1b[<button;col;rowm
fn decode_mouse(buf: &[u8]) -> (r: Result<Option<Input>, DecodeError>)
    requires
        buf@.len() > 2,
    ensures
        decoded_view(r) == mouse(buf@),
{
    let len = buf.len();
    let last = buf[len - 1];
    if !is_utf8(slice_subrange(buf, 3, len)) {
        return Err(DecodeError::MalformedParameter);
    }
    let end = find_byte(buf, 3, len, last);
    match parse_numbers(buf, 3, end, SEMICOLON) {
        None => Err(DecodeError::MalformedParameter),
        Some(fields) => {
            if fields.len() == 3 {
                let (btn, found, mods) = Mouse::unmask(fields[0]);
                let state = if last == MOUSE_RELEASE_END {
                    MouseState::Release
                } else {
                    found
                };
                Ok(
                    Some(
                        Input::Mouse(
                            btn,
                            state,
                            mods,
                            Point { x: Unit::CoR(fields[1]), y: Unit::CoR(fields[2]) },
                        ),
                    ),
                )
            } else {
                Ok(None)
            }
        },
    }
}

fn decode_csi(buf: &[u8]) -> (r: Result<Option<Input>, DecodeError>)
    requires
        buf@.len() > 2,
    ensures
        decoded_view(r) == csi(buf@),
{
    let last = buf[buf.len() - 1];
    if last == TILDE && buf.len() > 3 {
        // Functional Key
        decode_tilde(buf[2], buf[3])
    } else if last == KITTY_END {
        decode_kitty(buf)
    } else if (last == MOUSE_PRESS_END || last == MOUSE_RELEASE_END) && buf[2] == MOUSE_OPEN {
        decode_mouse(buf)
    } else {
        match final_key(buf[2]) {
            Some(key) => Ok(Some(press(key))),
            None => {
                if buf[2] == 0x5a {
                    Ok(Some(press_with(Key::Tab, Modifier::Shift)))
                } else {
                    Ok(None)
                }
            },
        }
    }
}

/// Decodes a buffer of bytes read from the terminal into an event, if it
/// holds one. The buffer has to hold one event: the caller splits what it
/// has read.
pub fn decode(buf: &[u8]) -> (r: Result<Option<Input>, DecodeError>)
    ensures
        decoded_view(r) == decode_spec(buf@),
{
    if buf.len() == 0 {
        Ok(None)
    } else if buf[0] == ESC && buf.len() == 2 {
        // Keys with alt
        Ok(decode_alt(buf[1]))
    } else if buf[0] == ESC && buf.len() > 2 {
        // Key sent as escape sequence
        if buf[1] == CSI_OPEN {
            decode_csi(buf)
        } else if buf[1] == SS3_OPEN {
            match final_key(buf[2]) {
                Some(key) => Ok(Some(press(key))),
                None => Err(DecodeError::UnknownSequence),
            }
        } else {
            Ok(None)
        }
    } else {
        Ok(decode_single(buf[0]))
    }
}

/// Decodes a buffer that holds no unsupported sequence.
pub fn parse(buf: &[u8]) -> (input: Option<Input>)
    requires
        decode_spec(buf@) is Ok,
    ensures
        Ok::<Option<InputView>, DecodeError>(option_view(input)) == decode_spec(buf@),
{
    match decode(buf) {
        Ok(input) => input,
        Err(_) => None,
    }
}

impl FromSpecImpl<Key> for Input {
    open spec fn obeys_from_spec() -> bool {
        false
    }

    open spec fn from_spec(value: Key) -> Input {
        arbitrary()
    }
}

impl From<Key> for Input {
    fn from(value: Key) -> (input: Input)
        ensures
            input@ == plain_press(value),
    {
        Input::Key(value, KeyState::Press, ModifierList(Vec::new()))
    }
}

impl FromSpecImpl<(Key, KeyState)> for Input {
    open spec fn obeys_from_spec() -> bool {
        false
    }

    open spec fn from_spec(value: (Key, KeyState)) -> Input {
        arbitrary()
    }
}

impl From<(Key, KeyState)> for Input {
    fn from(value: (Key, KeyState)) -> (input: Input)
        ensures
            input@ == InputView::Key(value.0, value.1, Seq::empty()),
    {
        Input::Key(value.0, value.1, ModifierList(Vec::new()))
    }
}

impl<T: Into<ModifierList>> FromSpecImpl<(Key, T)> for Input {
    open spec fn obeys_from_spec() -> bool {
        false
    }

    open spec fn from_spec(value: (Key, T)) -> Input {
        arbitrary()
    }
}

impl<T: Into<ModifierList>> From<(Key, T)> for Input {
    fn from(value: (Key, T)) -> (input: Input)
        ensures
            input matches Input::Key(key, state, mods) && key == value.0 && state
                == KeyState::Press && call_ensures(T::into, (value.1,), mods),
    {
        Input::Key(value.0, KeyState::Press, value.1.into())
    }
}

impl<T: Into<ModifierList>> FromSpecImpl<(Key, KeyState, T)> for Input {
    open spec fn obeys_from_spec() -> bool {
        false
    }

    open spec fn from_spec(value: (Key, KeyState, T)) -> Input {
        arbitrary()
    }
}

impl<T: Into<ModifierList>> From<(Key, KeyState, T)> for Input {
    fn from(value: (Key, KeyState, T)) -> (input: Input)
        ensures
            input matches Input::Key(key, state, mods) && key == value.0 && state == value.1
                && call_ensures(T::into, (value.2,), mods),
    {
        Input::Key(value.0, value.1, value.2.into())
    }
}

impl FromSpecImpl<Mouse> for Input {
    open spec fn obeys_from_spec() -> bool {
        false
    }

    open spec fn from_spec(value: Mouse) -> Input {
        arbitrary()
    }
}

impl From<Mouse> for Input {
    fn from(value: Mouse) -> (input: Input)
        ensures
            input@ == InputView::Mouse(
                value,
                if value.is_button() {
                    MouseState::Click
                } else {
                    MouseState::Scroll
                },
                Seq::empty(),
                Point { x: Unit::CoR(0), y: Unit::CoR(0) },
            ),
    {
        Input::Mouse(value, value.default_state(), ModifierList(Vec::new()), Point { x: Unit::CoR(0), y: Unit::CoR(0) })
    }
}

impl FromSpecImpl<(Mouse, MouseState)> for Input {
    open spec fn obeys_from_spec() -> bool {
        false
    }

    open spec fn from_spec(value: (Mouse, MouseState)) -> Input {
        arbitrary()
    }
}

impl From<(Mouse, MouseState)> for Input {
    fn from(value: (Mouse, MouseState)) -> (input: Input)
        ensures
            input@ == InputView::Mouse(value.0, value.1, Seq::empty(), Point { x: Unit::CoR(0), y: Unit::CoR(0) }),
    {
        Input::Mouse(value.0, value.1, ModifierList(Vec::new()), Point { x: Unit::CoR(0), y: Unit::CoR(0) })
    }
}

impl<T: Into<ModifierList>> FromSpecImpl<(Mouse, T)> for Input {
    open spec fn obeys_from_spec() -> bool {
        false
    }

    open spec fn from_spec(value: (Mouse, T)) -> Input {
        arbitrary()
    }
}

impl<T: Into<ModifierList>> From<(Mouse, T)> for Input {
    fn from(value: (Mouse, T)) -> (input: Input)
        ensures
            input matches Input::Mouse(button, state, mods, at) && button == value.0 && state
                == (if value.0.is_button() {
                MouseState::Click
            } else {
                MouseState::Scroll
            }) && call_ensures(T::into, (value.1,), mods) && at == (Point { x: Unit::CoR(0), y: Unit::CoR(0) }),
    {
        Input::Mouse(value.0, value.0.default_state(), value.1.into(), Point { x: Unit::CoR(0), y: Unit::CoR(0) })
    }
}

impl<T: Into<ModifierList>> FromSpecImpl<(Mouse, MouseState, T)> for Input {
    open spec fn obeys_from_spec() -> bool {
        false
    }

    open spec fn from_spec(value: (Mouse, MouseState, T)) -> Input {
        arbitrary()
    }
}

impl<T: Into<ModifierList>> From<(Mouse, MouseState, T)> for Input {
    fn from(value: (Mouse, MouseState, T)) -> (input: Input)
        ensures
            input matches Input::Mouse(button, state, mods, at) && button == value.0 && state
                == value.1 && call_ensures(T::into, (value.2,), mods) && at == (Point { x: Unit::CoR(0), y: Unit::CoR(0) }),
    {
        Input::Mouse(value.0, value.1, value.2.into(), Point { x: Unit::CoR(0), y: Unit::CoR(0) })
    }
}

/// Whether the key has a character from the space to the tilde.
pub open spec fn has_visible_char(key: Key) -> bool {
    match key.char_of() {
        Some(c) => ' ' <= c <= '~',
        None => false,
    }
}

impl InputView {
    /// Whether the modifiers are shown with the event: not where there are
    /// none, and not a lone Shift with a key that has a visible character,
    /// since that character already tells of it.
    pub open spec fn shows_modifiers(self) -> bool {
        match self {
            InputView::Key(key, _, mods) => !(mods.len() == 0 || (same_members(
                mods,
                seq![Modifier::Shift],
            ) && has_visible_char(key))),
            InputView::Mouse(_, _, mods, _) => mods.len() != 0,
        }
    }

    /// The event as it is shown: the modifiers and `" + "` where they are
    /// shown, then the key or button, then its state.
    pub open spec fn shown(self) -> Seq<char> {
        let body = match self {
            InputView::Key(key, state, _) => key.label() + state.suffix(),
            InputView::Mouse(button, state, _, _) => button.label() + state.suffix(),
        };
        let mods = match self {
            InputView::Key(_, _, mods) => mods,
            InputView::Mouse(_, _, mods, _) => mods,
        };
        if self.shows_modifiers() {
            joined_names(mods) + " + "@ + body
        } else {
            body
        }
    }
}

fn lone_shift(mods: &ModifierList) -> (lone: bool)
    ensures
        lone == same_members(mods@, seq![Modifier::Shift]),
{
    let mut one: Vec<Modifier> = Vec::new();
    one.push(Modifier::Shift);
    assert(one@ =~= seq![Modifier::Shift]);
    *mods == ModifierList(one)
}

fn visible(key: &Key) -> (yes: bool)
    ensures
        yes == has_visible_char(*key),
{
    match key.to_char() {
        Some(c) => ' ' <= c && c <= '~',
        None => false,
    }
}

impl Input {
    pub fn to_string(&self) -> (text: String)
        ensures
            text@ == self@.shown(),
    {
        match self {
            Input::Key(key, state, mods) => {
                let mut text = String::new();
                if !(mods.0.len() == 0 || (lone_shift(mods) && visible(key))) {
                    text.append(mods.to_string().as_str());
                    text.append(" + ");
                }
                text.append(key.to_string().as_str());
                text.append(state.to_string().as_str());
                assert(text@ =~= self@.shown());
                text
            },
            Input::Mouse(button, state, mods, _) => {
                let mut text = String::new();
                if mods.0.len() != 0 {
                    text.append(mods.to_string().as_str());
                    text.append(" + ");
                }
                text.append(button.to_string().as_str());
                text.append(state.to_string().as_str());
                assert(text@ =~= self@.shown());
                text
            },
        }
    }
}

} // verus!
