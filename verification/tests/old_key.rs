use brannon::key::binds::KeyBinds;
use brannon::key::Key;

#[test]
fn ascii_keys_round_trip() {
    assert_eq!(Key::new('\0'), None);
    assert_eq!(Key::new('a'), Some(Key::a));
    assert_eq!(Key::new('A'), Some(Key::A));
    assert_eq!(Key::new('@'), Some(Key::At));
    assert_eq!(Key::new('\x1b'), Some(Key::ESC));
    assert_eq!(Key::new('\n'), Some(Key::LF));
    assert_eq!(Key::new('\r'), Some(Key::CR));
    assert_eq!(Key::new('\x7f'), Some(Key::Del));
    assert_eq!(Key::new('\x08'), Some(Key::BS));
    assert_eq!(Key::new('='), Some(Key::Eq));
    assert_eq!(Key::new('é'), None);
    assert_eq!(Key::new('\x0e'), None);
    assert_eq!(Key::Null.to_char(), None);
    assert_eq!(Key::SO.to_char(), None);
    assert_eq!(Key::US.to_char(), None);
    assert_eq!(Key::Tilde.to_char(), Some('~'));
    let mut keys = 0;
    for c in 0u8..=127 {
        if let Some(key) = Key::new(c as char) {
            assert_eq!(key.to_char(), Some(c as char));
            keys += 1;
        }
    }
    // The characters 1 to 13, the escape, and 32 to 127.
    assert_eq!(keys, 13 + 1 + 96);
}

#[test]
fn ascii_key_labels() {
    assert_eq!(Key::LF.to_string(), "Enter");
    assert_eq!(Key::a.to_string(), "a");
    assert_eq!(Key::Space.to_string(), " ");
    assert_eq!(Key::Null.to_string(), "");
    assert_eq!(Key::DC1.to_string(), "");
    assert_eq!(Key::VBar.to_string(), "|");
}

#[test]
fn key_binds_keep_their_order() {
    let mut kb = KeyBinds::new();
    assert!(kb.is_empty());
    assert_eq!(kb.count(), 0);
    assert_eq!(kb.len(), 0);
    kb.add_bind(Key::LF, "Continue").add_bind(Key::q, "Quit");
    assert!(!kb.is_empty());
    assert_eq!(kb.count(), 2);
    assert_eq!(kb.to_string(), " Continue <Enter> Quit <q>");
    assert_eq!(kb.len(), 26);
    let kb = kb.clone().bind(Key::q, "Again").bind(Key::h, "Help");
    assert_eq!(kb.to_string(), " Continue <Enter> Quit <q> Again <q> Help <h>");
    let mut kb = kb;
    // The first binding of a key is the one that leaves.
    kb.remove_bind(Key::q);
    assert_eq!(kb.to_string(), " Continue <Enter> Again <q> Help <h>");
    kb.remove_bind(Key::z).remove_bind(Key::LF);
    assert_eq!(kb.to_string(), " Again <q> Help <h>");
    assert!(kb.edit_bind(Key::q).is_none());
    assert_eq!(kb.count(), 2);
    let from: KeyBinds = vec![(Key::a, "A".to_string()), (Key::b, "B".to_string())].into();
    assert_eq!(from.to_string(), " A <a> B <b>");
}
