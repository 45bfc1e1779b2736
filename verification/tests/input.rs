use brannon::input::key::{Key, KeyState};
use brannon::input::modifier::{Modifier, ModifierList};
use brannon::input::mouse::{Mouse, MouseState};
use brannon::input::{decode, parse, DecodeError, Input};

#[test]
fn mod_display() {
    assert_eq!(
        Input::Key(Key::a, KeyState::Press, [].into()).to_string(),
        "a"
    );

    assert_eq!(
        Input::Key(Key::a, KeyState::Press, Modifier::Ctrl.into()).to_string(),
        "Ctrl + a"
    );

    assert_eq!(
        Input::Key(
            Key::a,
            KeyState::Press,
            [Modifier::Ctrl, Modifier::Alt].into()
        )
        .to_string(),
        "Ctrl + Alt + a"
    );
}

#[test]
fn equality() {
    let input1 = Input::from((Key::a, Modifier::Ctrl));
    let input2 = Input::from((Key::a, Modifier::Ctrl));
    let input3 = Input::from((Key::A, KeyState::Repeat, [Modifier::Ctrl, Modifier::Alt]));

    assert!(input1 == input2);
    assert!(input1 != input3);

    if let Input::Key(k1, s1, m1) = input1 {
        if let Input::Key(k2, s2, m2) = input2 {
            if let Input::Key(k3, s3, m3) = input3 {
                assert!(k1 == k2);
                assert!(s1 == s2);
                assert!(m1 == m2);

                assert!(k1 != k3);
                assert!(s1 != s3);
                assert!(m1 != m3);
            }
        }
    }
}

#[test]
fn matching() {
    let input: Input = (Key::a, Modifier::Ctrl).into();

    assert!(matches!(
        input,
        Input::Key(Key::a, _, mods) if mods == Modifier::Ctrl
    ));
}

#[test]
fn parse_single_char() {
    assert!(parse(b"\x1b") == Some(Key::Escape.into()));
    assert!(parse(b"\n") == Some(Key::Enter.into()));
    assert!(parse(b"a") == Some(Key::a.into()));
    assert!(parse(b"\x01") == Some((Key::a, Modifier::Ctrl).into()));
    assert!(parse(b"\x09") != Some((Key::i, Modifier::Ctrl).into()));
}

#[test]
fn parse_tidle() {
    assert!(parse(b"\x1b[~").is_none());
    assert!(parse(b"\x1b[1~") == Some(Key::Home.into()));
    assert!(parse(b"\x1b[3~") == Some(Key::Delete.into()));
    assert!(parse(b"\x1b[13~") == Some(Key::Function(3).into()));
    assert!(parse(b"\x1b[24~") == Some(Key::Function(12).into()));
}

#[test]
fn parse_invalid() {
    assert_eq!(decode(b"\x1b[30~"), Err(DecodeError::UnknownSequence));
}

#[test]
fn parse_mods() {
    assert!(parse(b"\x01") == Some((Key::a, [Modifier::Ctrl]).into()));
    assert!(parse(b"\x1bc") == Some((Key::c, [Modifier::Alt]).into()));
    assert!(parse(b"\x1b\x1b") == Some((Key::Escape, [Modifier::Alt]).into()));
}

#[test]
fn parse_kitty_protocol() {
    assert!(parse(b"\x1b[97u") == Some(Key::a.into()));
    assert!(
        parse(b"\x1b[9;2:3u") == Some((Key::Tab, KeyState::Release, Modifier::Shift).into())
    );
    // The primary key code is a key by itself, so the alternate one is not
    // looked at.
    assert!(parse(b"\x1b[97:65;2u") == Some((Key::a, Modifier::Shift).into()));
    assert!(parse(b"\x1b[97;5u") == Some((Key::a, Modifier::Ctrl).into()));
    assert!(parse(b"\x1b[97;5:2u") == Some((Key::a, KeyState::Repeat, Modifier::Ctrl).into()));
}

#[test]
fn parse_mouse_basic() {
    assert!(
        parse(b"\x1b[<0;10;20M")
            == Some(Input::Mouse(
                Mouse::Left,
                MouseState::Click,
                [].into(),
                (10, 20).into()
            ))
    );

    assert!(
        parse(b"\x1b[<0;10;20m")
            == Some(Input::Mouse(
                Mouse::Left,
                MouseState::Release,
                [].into(),
                (10, 20).into()
            ))
    );

    assert!(
        parse(b"\x1b[<42;5;6M")
            == Some(Input::Mouse(
                Mouse::Right,
                MouseState::Drag,
                Modifier::Alt.into(),
                (5, 6).into()
            ))
    );

    assert!(
        parse(b"\x1b[<64;30;12M")
            == Some(Input::Mouse(
                Mouse::WheelUp,
                MouseState::Scroll,
                [].into(),
                (30, 12).into()
            ))
    );
}

#[test]
fn parse_mouse_modifiers() {
    assert!(
        parse(b"\x1b[<28;1;1M")
            == Some(Input::Mouse(
                Mouse::Left,
                MouseState::Click,
                [Modifier::Shift, Modifier::Alt, Modifier::Ctrl].into(),
                (1, 1).into()
            ))
    );

    assert!(
        parse(b"\x1b[<86;4;7M")
            == Some(Input::Mouse(
                Mouse::WheelLeft,
                MouseState::Scroll,
                [Modifier::Shift, Modifier::Ctrl].into(),
                (4, 7).into()
            ))
    );

    assert!(
        parse(b"\x1b[<4;2;3m")
            == Some(Input::Mouse(
                Mouse::Left,
                MouseState::Release,
                Modifier::Shift.into(),
                (2, 3).into()
            ))
    );
}

fn key(which: Key) -> Result<Option<Input>, DecodeError> {
    Ok(Some(Input::Key(which, KeyState::Press, ModifierList(vec![]))))
}

fn key_with(
    which: Key,
    state: KeyState,
    mods: Vec<Modifier>,
) -> Result<Option<Input>, DecodeError> {
    Ok(Some(Input::Key(which, state, ModifierList(mods))))
}

#[test]
fn decode_examples() {
    assert_eq!(decode(&[0x1b]), key(Key::Escape));
    assert_eq!(decode(&[0x0a]), key(Key::Enter));
    assert_eq!(
        decode(&[0x01]),
        key_with(Key::a, KeyState::Press, vec![Modifier::Ctrl])
    );
    assert_eq!(decode(b"\x1b[1~"), key(Key::Home));
    assert_eq!(decode(b"\x1b[13~"), key(Key::Function(3)));
    assert_eq!(
        decode(b"\x1b[9;2:3u"),
        key_with(Key::Tab, KeyState::Release, vec![Modifier::Shift])
    );
    assert_eq!(
        decode(b"\x1b[<0;10;20M"),
        Ok(Some(Input::Mouse(
            Mouse::Left,
            MouseState::Click,
            [].into(),
            (10, 20).into()
        )))
    );
    assert_eq!(
        decode(b"\x1b[<0;10;20m"),
        Ok(Some(Input::Mouse(
            Mouse::Left,
            MouseState::Release,
            [].into(),
            (10, 20).into()
        )))
    );
    assert_eq!(
        decode(b"\x1b[<42;5;6M"),
        Ok(Some(Input::Mouse(
            Mouse::Right,
            MouseState::Drag,
            Modifier::Alt.into(),
            (5, 6).into()
        )))
    );
}

#[test]
fn decode_no_event() {
    assert_eq!(decode(b"\x1b[~"), Ok(None));
    assert_eq!(decode(&[]), Ok(None));
    assert_eq!(decode(&[0x00]), Ok(None));
    assert_eq!(decode(&[0x1c]), Ok(None));
    assert_eq!(decode(&[0x1f]), Ok(None));
    assert_eq!(decode(&[0x80]), Ok(None));
    assert_eq!(decode(&[0xff]), Ok(None));
    assert_eq!(decode(b"\x1bXY"), Ok(None));
    assert_eq!(decode(b"\x1b[1;5A"), Ok(None));
    assert_eq!(decode(b"\x1b[G"), Ok(None));
}

#[test]
fn decode_single_bytes() {
    assert_eq!(decode(&[0x08]), key(Key::Backspace));
    assert_eq!(decode(&[0x7f]), key(Key::Backspace));
    assert_eq!(decode(&[0x09]), key(Key::Tab));
    assert_eq!(decode(&[0x0d]), key(Key::Enter));
    assert_eq!(decode(b" "), key(Key::Space));
    assert_eq!(decode(b"~"), key(Key::Tilde));
    assert_eq!(decode(b"Z"), key(Key::Z));
    // The first byte decides; what follows it is not looked at.
    assert_eq!(decode(b"ab"), key(Key::a));
    assert_eq!(decode(b"abc"), key(Key::a));
    for b in 0x01u8..=0x1a {
        if b == 0x08 || b == 0x09 || b == 0x0a || b == 0x0d {
            continue;
        }
        let letter = Key::from_char((b + 0x60) as char).unwrap();
        assert_eq!(
            decode(&[b]),
            key_with(letter, KeyState::Press, vec![Modifier::Ctrl])
        );
    }
    assert_eq!(
        decode(&[0x1a]),
        key_with(Key::z, KeyState::Press, vec![Modifier::Ctrl])
    );
}

#[test]
fn decode_alt() {
    assert_eq!(
        decode(b"\x1bc"),
        key_with(Key::c, KeyState::Press, vec![Modifier::Alt])
    );
    assert_eq!(
        decode(b"\x1b["),
        key_with(Key::LBracket, KeyState::Press, vec![Modifier::Alt])
    );
    assert_eq!(
        decode(b"\x1bO"),
        key_with(Key::O, KeyState::Press, vec![Modifier::Alt])
    );
    assert_eq!(
        decode(b"\x1b\x7f"),
        key_with(Key::Backspace, KeyState::Press, vec![Modifier::Alt])
    );
    // A byte that by itself is a key with Ctrl is no unmodified key.
    assert_eq!(decode(b"\x1b\x01"), Ok(None));
    assert_eq!(decode(b"\x1b\x00"), Ok(None));
}

#[test]
fn decode_short_sequences() {
    assert_eq!(decode(b"\x1b[A"), key(Key::Up));
    assert_eq!(decode(b"\x1b[B"), key(Key::Down));
    assert_eq!(decode(b"\x1b[C"), key(Key::Right));
    assert_eq!(decode(b"\x1b[D"), key(Key::Left));
    assert_eq!(decode(b"\x1b[H"), key(Key::Home));
    assert_eq!(decode(b"\x1b[F"), key(Key::End));
    assert_eq!(decode(b"\x1b[P"), key(Key::Function(1)));
    assert_eq!(decode(b"\x1b[Q"), key(Key::Function(2)));
    assert_eq!(decode(b"\x1b[R"), key(Key::Function(3)));
    assert_eq!(decode(b"\x1b[S"), key(Key::Function(4)));
    assert_eq!(
        decode(b"\x1b[Z"),
        key_with(Key::Tab, KeyState::Press, vec![Modifier::Shift])
    );
    assert_eq!(decode(b"\x1bOA"), key(Key::Up));
    assert_eq!(decode(b"\x1bOB"), key(Key::Down));
    assert_eq!(decode(b"\x1bOC"), key(Key::Right));
    assert_eq!(decode(b"\x1bOD"), key(Key::Left));
    assert_eq!(decode(b"\x1bOH"), key(Key::Home));
    assert_eq!(decode(b"\x1bOF"), key(Key::End));
    assert_eq!(decode(b"\x1bOP"), key(Key::Function(1)));
    assert_eq!(decode(b"\x1bOQ"), key(Key::Function(2)));
    assert_eq!(decode(b"\x1bOR"), key(Key::Function(3)));
    assert_eq!(decode(b"\x1bOS"), key(Key::Function(4)));
    assert_eq!(decode(b"\x1bOZ"), Err(DecodeError::UnknownSequence));
    assert_eq!(decode(b"\x1bO1"), Err(DecodeError::UnknownSequence));
    // Ends like a mouse report but does not begin like one.
    assert_eq!(decode(b"\x1b[M"), Ok(None));
    assert_eq!(decode(b"\x1b[AM"), key(Key::Up));
}

#[test]
fn decode_tilde_table() {
    assert_eq!(decode(b"\x1b[2~"), key(Key::Insert));
    assert_eq!(decode(b"\x1b[3~"), key(Key::Delete));
    assert_eq!(decode(b"\x1b[4~"), key(Key::End));
    assert_eq!(decode(b"\x1b[5~"), key(Key::PageUp));
    assert_eq!(decode(b"\x1b[6~"), key(Key::PageDown));
    assert_eq!(decode(b"\x1b[05~"), key(Key::PageUp));
    let numbers: [(u8, u8); 12] = [
        (11, 1),
        (12, 2),
        (13, 3),
        (14, 4),
        (15, 5),
        (17, 6),
        (18, 7),
        (19, 8),
        (20, 9),
        (21, 10),
        (23, 11),
        (24, 12),
    ];
    for (number, f) in numbers {
        let text = format!("\x1b[{}~", number);
        assert_eq!(decode(text.as_bytes()), key(Key::Function(f)));
    }
    // What follows the number is not looked at.
    assert_eq!(decode(b"\x1b[15;2~"), key(Key::Function(5)));
    assert_eq!(decode(b"\x1b[1;5~"), key(Key::Home));
    for number in [0, 7, 8, 9, 10, 16, 22, 25, 30, 99] {
        let text = format!("\x1b[{}~", number);
        assert_eq!(
            decode(text.as_bytes()),
            Err(DecodeError::UnknownSequence)
        );
    }
    assert_eq!(decode(b"\x1b[A;~"), Err(DecodeError::MalformedParameter));
    assert_eq!(decode(b"\x1b[ 1~"), Err(DecodeError::MalformedParameter));
}

#[test]
fn decode_kitty() {
    assert_eq!(decode(b"\x1b[97u"), key(Key::a));
    assert_eq!(decode(b"\x1b[13u"), key(Key::Enter));
    assert_eq!(decode(b"\x1b[127u"), key(Key::Backspace));
    assert_eq!(decode(b"\x1b[27u"), key(Key::Escape));
    assert_eq!(decode(b"\x1b[+97u"), key(Key::a));
    assert_eq!(decode(b"\x1b[097u"), key(Key::a));
    // The alternate code is used where the primary one is no key.
    assert_eq!(decode(b"\x1b[57358:65u"), key(Key::A));
    assert_eq!(decode(b"\x1b[200:66;2u"),
        key_with(Key::B, KeyState::Press, vec![Modifier::Shift]));
    assert_eq!(decode(b"\x1b[x:65u"), key(Key::A));
    // Neither code is a key.
    assert_eq!(decode(b"\x1b[57358u"), Ok(None));
    assert_eq!(decode(b"\x1b[200:300u"), Ok(None));
    assert_eq!(decode(b"\x1b[1:65:66u"), Ok(None));
    assert_eq!(decode(b"\x1b[u"), Ok(None));
    assert_eq!(decode(b"\x1b[\xc3\xa9u"), Ok(None));
    // Modifiers and state
    assert_eq!(
        decode(b"\x1b[97;8u"),
        key_with(
            Key::a,
            KeyState::Press,
            vec![Modifier::Shift, Modifier::Alt, Modifier::Ctrl]
        )
    );
    assert_eq!(decode(b"\x1b[97;1u"), key(Key::a));
    assert_eq!(decode(b"\x1b[97;0u"), key(Key::a));
    assert_eq!(
        decode(b"\x1b[97;5:1u"),
        key_with(Key::a, KeyState::Press, vec![Modifier::Ctrl])
    );
    assert_eq!(
        decode(b"\x1b[97;5:7u"),
        key_with(Key::a, KeyState::Press, vec![Modifier::Ctrl])
    );
    assert_eq!(
        decode(b"\x1b[97;5:3:9u"),
        key_with(Key::a, KeyState::Release, vec![Modifier::Ctrl])
    );
    assert_eq!(
        decode(b"\x1b[97;2;65u"),
        key_with(Key::a, KeyState::Press, vec![Modifier::Shift])
    );
    // The parameters end at the first `u`.
    assert_eq!(decode(b"\x1b[97u\x1b[98u"), key(Key::a));
}

#[test]
fn decode_kitty_errors() {
    assert_eq!(decode(b"\x1b[97;u"), Err(DecodeError::MalformedParameter));
    assert_eq!(decode(b"\x1b[97;xu"), Err(DecodeError::MalformedParameter));
    assert_eq!(decode(b"\x1b[97;-1u"), Err(DecodeError::MalformedParameter));
    assert_eq!(decode(b"\x1b[97;2:u"), Err(DecodeError::MalformedParameter));
    assert_eq!(decode(b"\x1b[97;2:256u"), Err(DecodeError::MalformedParameter));
    assert_eq!(decode(b"\x1b[97;2:xu"), Err(DecodeError::MalformedParameter));
    assert_eq!(
        decode(b"\x1b[97;99999999999999999999999999u"),
        Err(DecodeError::MalformedParameter)
    );
    // A key code that is no key does not hide a bad modifier.
    assert_eq!(decode(b"\x1b[999;xu"), Err(DecodeError::MalformedParameter));
    // Bytes that are no text
    assert_eq!(decode(b"\x1b[97\xffu"), Err(DecodeError::MalformedParameter));
    assert_eq!(decode(b"\x1b[97u\xffu"), Err(DecodeError::MalformedParameter));
    assert_eq!(decode(b"\x1b[\xc3u"), Err(DecodeError::MalformedParameter));
}

#[test]
fn decode_mouse() {
    assert_eq!(
        decode(b"\x1b[<65;1;2M"),
        Ok(Some(Input::Mouse(
            Mouse::WheelDown,
            MouseState::Scroll,
            [].into(),
            (1, 2).into()
        )))
    );
    assert_eq!(
        decode(b"\x1b[<35;7;9m"),
        Ok(Some(Input::Mouse(
            Mouse::Left,
            MouseState::Release,
            [].into(),
            (7, 9).into()
        )))
    );
    assert_eq!(
        decode(b"\x1b[<1;300;400M"),
        Ok(Some(Input::Mouse(
            Mouse::Middle,
            MouseState::Click,
            [].into(),
            (300, 400).into()
        )))
    );
    // Another number of parameters is no event.
    assert_eq!(decode(b"\x1b[<0;10M"), Ok(None));
    assert_eq!(decode(b"\x1b[<0M"), Ok(None));
    assert_eq!(decode(b"\x1b[<0;1;2;3M"), Ok(None));
    // The parameters end at the first occurrence of the final byte.
    assert_eq!(
        decode(b"\x1b[<0;1;2M\x1b[<0;1;2M"),
        Ok(Some(Input::Mouse(
            Mouse::Left,
            MouseState::Click,
            [].into(),
            (1, 2).into()
        )))
    );
    assert_eq!(decode(b"\x1b[<0;1;2Mm"), Err(DecodeError::MalformedParameter));
}

#[test]
fn decode_mouse_errors() {
    assert_eq!(decode(b"\x1b[<M"), Err(DecodeError::MalformedParameter));
    assert_eq!(decode(b"\x1b[<0;;2M"), Err(DecodeError::MalformedParameter));
    assert_eq!(decode(b"\x1b[<0;1;M"), Err(DecodeError::MalformedParameter));
    assert_eq!(decode(b"\x1b[<a;1;2M"), Err(DecodeError::MalformedParameter));
    assert_eq!(decode(b"\x1b[<0;1;2;xM"), Err(DecodeError::MalformedParameter));
    assert_eq!(decode(b"\x1b[<0;1;-2M"), Err(DecodeError::MalformedParameter));
    assert_eq!(decode(b"\x1b[<0;1;2\xffM"), Err(DecodeError::MalformedParameter));
    assert_eq!(decode(b"\x1b[<0;1;2M\xffM"), Err(DecodeError::MalformedParameter));
}

#[test]
fn input_conversions() {
    assert_eq!(
        Input::from(Key::a),
        Input::Key(Key::a, KeyState::Press, ModifierList(vec![]))
    );
    assert_eq!(
        Input::from((Key::a, KeyState::Repeat)),
        Input::Key(Key::a, KeyState::Repeat, ModifierList(vec![]))
    );
    assert_eq!(
        Input::from((Key::a, 6usize)),
        Input::Key(
            Key::a,
            KeyState::Press,
            ModifierList(vec![Modifier::Shift, Modifier::Ctrl])
        )
    );
    assert_eq!(
        Input::from(Mouse::Right),
        Input::Mouse(
            Mouse::Right,
            MouseState::Click,
            ModifierList(vec![]),
            (0, 0).into()
        )
    );
    assert_eq!(
        Input::from(Mouse::WheelLeft),
        Input::Mouse(
            Mouse::WheelLeft,
            MouseState::Scroll,
            ModifierList(vec![]),
            (0, 0).into()
        )
    );
    assert_eq!(
        Input::from((Mouse::Left, MouseState::Drag)),
        Input::Mouse(
            Mouse::Left,
            MouseState::Drag,
            ModifierList(vec![]),
            (0, 0).into()
        )
    );
    assert_eq!(
        Input::from((Mouse::WheelUp, Modifier::Alt)),
        Input::Mouse(
            Mouse::WheelUp,
            MouseState::Scroll,
            ModifierList(vec![Modifier::Alt]),
            (0, 0).into()
        )
    );
    assert_eq!(
        Input::from((Mouse::Middle, MouseState::Release, [Modifier::Ctrl])),
        Input::Mouse(
            Mouse::Middle,
            MouseState::Release,
            ModifierList(vec![Modifier::Ctrl]),
            (0, 0).into()
        )
    );
    let copy = Input::from((Key::q, [Modifier::Alt, Modifier::Shift])).clone();
    assert_eq!(
        copy,
        Input::Key(
            Key::q,
            KeyState::Press,
            ModifierList(vec![Modifier::Alt, Modifier::Shift])
        )
    );
}

#[test]
fn input_shows_shift_only_with_keys_without_a_character() {
    assert_eq!(
        Input::Key(Key::A, KeyState::Press, Modifier::Shift.into()).to_string(),
        "A"
    );
    assert_eq!(
        Input::Key(Key::Tab, KeyState::Press, Modifier::Shift.into()).to_string(),
        "Shift + Tab"
    );
    assert_eq!(
        Input::Key(Key::Up, KeyState::Release, Modifier::Shift.into()).to_string(),
        "Shift + ↑ (release)"
    );
    assert_eq!(
        Input::Key(Key::Space, KeyState::Repeat, Modifier::Shift.into()).to_string(),
        "Space (repeat)"
    );
    assert_eq!(
        Input::Key(Key::a, KeyState::Press, [Modifier::Shift, Modifier::Alt].into()).to_string(),
        "Shift + Alt + a"
    );
}
