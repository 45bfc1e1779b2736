use brannon::input::mask::Mask;
use brannon::input::modifier::{Modifier, ModifierList};

#[test]
fn eq() {
    let mods = ModifierList(vec![Modifier::Ctrl]);
    assert!(mods == vec![Modifier::Ctrl]);
    assert!(mods == [Modifier::Ctrl]);
    assert!(mods == Modifier::Ctrl);

    let mods2 = ModifierList(vec![Modifier::Alt, Modifier::Ctrl]);
    assert!(mods2 == vec![Modifier::Ctrl, Modifier::Alt]);
    assert!(mods2 != [Modifier::Ctrl, Modifier::Super]);
    assert!(mods2 != Modifier::Ctrl);

    let mods3 = ModifierList(vec![Modifier::Ctrl, Modifier::Alt]);
    assert!(mods2 == mods3);
}

#[test]
fn op() {
    assert_eq!(Modifier::Shift.bit(), 0b0001);
    assert_eq!(Modifier::Alt & Modifier::Ctrl, 0b0000);
    assert_eq!(Modifier::Shift | Modifier::Ctrl, 0b0101);
    assert_ne!(Modifier::Alt | Modifier::Ctrl, 0b0101);
}

#[test]
fn mask() {
    assert!(ModifierList(vec![]).mask() == 0b1);
    assert!(ModifierList(vec![Modifier::Shift]).mask() == 0b10);
    assert!(ModifierList(vec![Modifier::Alt]).mask() == 0b11);
    assert!(ModifierList(vec![Modifier::Shift, Modifier::Alt]).mask() == 0b100);
    assert!(ModifierList(vec![Modifier::Ctrl]).mask() == 0b101);
    assert!(ModifierList(vec![Modifier::Shift, Modifier::Ctrl]).mask() == 0b110);
    assert!(ModifierList(vec![Modifier::Ctrl, Modifier::Alt]).mask() == 0b111);
    assert!(
        ModifierList(vec![Modifier::Ctrl, Modifier::Shift, Modifier::Alt]).mask() == 0b1000
    );
    assert!(ModifierList(vec![Modifier::Super]).mask() == 0b1001);
}

#[test]
fn unmask() {
    assert!(ModifierList::unmask(0b1) == []);
    assert!(ModifierList::unmask(0b10) == [Modifier::Shift]);
    assert!(ModifierList::unmask(0b11) == [Modifier::Alt]);
    assert!(ModifierList::unmask(0b100) == [Modifier::Shift, Modifier::Alt]);
    assert!(ModifierList::unmask(0b101) == [Modifier::Ctrl]);
    assert!(ModifierList::unmask(0b110) == [Modifier::Shift, Modifier::Ctrl]);
    assert!(ModifierList::unmask(0b111) == [Modifier::Ctrl, Modifier::Alt]);
    assert!(ModifierList::unmask(0b1000) == [Modifier::Ctrl, Modifier::Shift, Modifier::Alt]);
    assert!(ModifierList::unmask(0b1001) == [Modifier::Super]);
}

#[test]
fn display_single_and_multiple() {
    let one = ModifierList(vec![Modifier::Ctrl]);
    assert_eq!(one.to_string(), "Ctrl");

    let two = ModifierList(vec![Modifier::Ctrl, Modifier::Alt]);
    // Order preserved from construction
    assert_eq!(two.to_string(), "Ctrl + Alt");

    // Different insertion order
    let swapped = ModifierList(vec![Modifier::Alt, Modifier::Ctrl]);
    assert_eq!(swapped.to_string(), "Alt + Ctrl");
}

#[test]
fn add_and_add_assign_no_duplicates() {
    let list = ModifierList(vec![Modifier::Ctrl]) + Modifier::Alt + Modifier::Ctrl;
    assert!(list == [Modifier::Ctrl, Modifier::Alt] || list == [Modifier::Alt, Modifier::Ctrl]);

    let mut list2 = ModifierList(vec![Modifier::Shift]);
    list2 += Modifier::Shift;
    list2 += Modifier::Alt;
    list2 += Modifier::Alt;
    assert!(
        list2 == [Modifier::Shift, Modifier::Alt] || list2 == [Modifier::Alt, Modifier::Shift]
    );
}

#[test]
fn roundtrip_masks_all_combinations() {
    // Valid mask values are 1 + bitset of modifiers (6 bits => 0..=63 => 1..=64)
    for mask in 0b1..=0b1000000 {
        let mods = ModifierList::unmask(mask);
        assert_eq!(mods.mask(), mask, "roundtrip failed for mask {mask:b}");
    }
}

#[test]
fn from_usize_matches_unmask() {
    for mask in 0b1..=0b1000000 {
        let a = ModifierList::from(mask);
        let b = ModifierList::unmask(mask);
        assert_eq!(a, b);
    }
}

#[test]
fn equality_order_independent_various() {
    let a = ModifierList(vec![Modifier::Ctrl, Modifier::Alt, Modifier::Shift]);
    let b = ModifierList(vec![Modifier::Shift, Modifier::Ctrl, Modifier::Alt]);
    let c = ModifierList(vec![Modifier::Alt, Modifier::Ctrl, Modifier::Shift]);
    assert_eq!(a, b);
    assert_eq!(b, c);
    assert_eq!(a, c);
}

#[test]
fn partial_eq_usize() {
    let mods = ModifierList(vec![Modifier::Ctrl, Modifier::Alt]);
    // mask() adds 1
    let expected_mask = mods.mask();
    assert!(mods == expected_mask);
    assert!(mods != (expected_mask + 1));
}

#[test]
fn ctrl_alt_equals_alt_ctrl() {
    let a = ModifierList(vec![Modifier::Ctrl, Modifier::Alt]);
    let b = ModifierList(vec![Modifier::Alt, Modifier::Ctrl]);
    assert!(a == b);
    assert!(b == a);
    assert_eq!(a.mask(), b.mask());
    assert!(a != ModifierList(vec![Modifier::Ctrl, Modifier::Super]));
    assert!(a != ModifierList(vec![Modifier::Ctrl]));
}

#[test]
fn unmask_ignores_unused_bits_and_takes_zero() {
    assert!(ModifierList::unmask(0) == []);
    assert_eq!(ModifierList::unmask(0).0.len(), 0);
    // 64 + 1: only the bit above the six modifiers is set.
    assert!(ModifierList::unmask(65) == []);
    // 64 + 5 + 1
    assert!(ModifierList::unmask(70) == [Modifier::Shift, Modifier::Ctrl]);
    assert_eq!(
        ModifierList::unmask(64).0,
        vec![
            Modifier::Shift,
            Modifier::Alt,
            Modifier::Ctrl,
            Modifier::Super,
            Modifier::Hyper,
            Modifier::Meta
        ]
    );
}

#[test]
fn mask_counts_a_repeated_modifier_once() {
    assert_eq!(ModifierList(vec![Modifier::Alt, Modifier::Alt]).mask(), 0b11);
    assert_eq!(ModifierList(vec![Modifier::Hyper]).mask(), 17);
    assert_eq!(ModifierList(vec![Modifier::Meta]).mask(), 33);
}

#[test]
fn modifier_names_and_bits() {
    assert_eq!(Modifier::Shift.to_string(), "Shift");
    assert_eq!(Modifier::Alt.to_string(), "Alt");
    assert_eq!(Modifier::Ctrl.to_string(), "Ctrl");
    assert_eq!(Modifier::Super.to_string(), "Super");
    assert_eq!(Modifier::Hyper.to_string(), "Hyper");
    assert_eq!(Modifier::Meta.to_string(), "Meta");
    assert_eq!(Modifier::Alt.bit(), 2);
    assert_eq!(Modifier::Ctrl.bit(), 4);
    assert_eq!(Modifier::Super.bit(), 8);
    assert_eq!(Modifier::Hyper.bit(), 16);
    assert_eq!(Modifier::Meta.bit(), 32);
    assert_eq!(ModifierList(vec![]).to_string(), "");
}

#[test]
fn modifier_list_copies_and_conversions() {
    let a = ModifierList(vec![Modifier::Ctrl, Modifier::Alt]);
    let b = a.clone();
    assert_eq!(b.0, vec![Modifier::Ctrl, Modifier::Alt]);
    let c: ModifierList = Modifier::Super.into();
    assert_eq!(c.0, vec![Modifier::Super]);
    let d: ModifierList = vec![Modifier::Meta, Modifier::Shift].into();
    assert_eq!(d.0, vec![Modifier::Meta, Modifier::Shift]);
    let e: ModifierList = [Modifier::Hyper, Modifier::Alt].into();
    assert_eq!(e.0, vec![Modifier::Hyper, Modifier::Alt]);
}
