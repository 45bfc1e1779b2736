use brannon::text::{array_into_vec, push_decimal, push_repeated, same_text};

#[test]
fn decimal_digits() {
    for (n, digits) in [
        (0usize, "0"),
        (7, "7"),
        (9, "9"),
        (10, "10"),
        (99, "99"),
        (100, "100"),
        (1234567890, "1234567890"),
    ] {
        let mut out = String::from("x");
        push_decimal(&mut out, n);
        assert_eq!(out, format!("x{}", digits));
    }
    let mut out = String::new();
    push_decimal(&mut out, usize::MAX);
    assert_eq!(out, usize::MAX.to_string());
}

#[test]
fn repeated_text() {
    let mut out = String::from(">");
    push_repeated(&mut out, "ab", 3);
    assert_eq!(out, ">ababab");
    push_repeated(&mut out, "ab", 0);
    assert_eq!(out, ">ababab");
    push_repeated(&mut out, "", 5);
    assert_eq!(out, ">ababab");
    push_repeated(&mut out, "═", 2);
    assert_eq!(out, ">ababab══");
}

#[test]
fn text_comparison() {
    assert!(same_text("", ""));
    assert!(same_text("tag", "tag"));
    assert!(!same_text("tag", "tags"));
    assert!(!same_text("tag", "Tag"));
    assert!(same_text("é", "\u{e9}"));
    assert_eq!(array_into_vec([1, 2, 3]), vec![1, 2, 3]);
    assert_eq!(array_into_vec::<u8, 0>([]), Vec::<u8>::new());
}
