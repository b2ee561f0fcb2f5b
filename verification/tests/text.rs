use cargo_fuzz::text::{crate_ident, push_decimal, same_text};

#[test]
fn texts_are_the_same_when_their_characters_are() {
    assert!(same_text("", ""));
    assert!(same_text("address", "address"));
    assert!(same_text("gr\u{fc}n", "gr\u{fc}n"));
    assert!(!same_text("address", "addres"));
    assert!(!same_text("address", "addresS"));
    assert!(!same_text("", " "));
    assert!(!same_text("thread", "threat"));
    assert!(!same_text("\u{e9}", "e\u{301}"));
}

#[test]
fn numerals_are_decimal() {
    for n in [0usize, 1, 5, 9, 10, 19, 20, 99, 100, 109, 110, 12345, 65535, 1000000, usize::MAX] {
        let mut out = String::from("n=");
        push_decimal(&mut out, n);
        assert_eq!(out, format!("n={}", n));
    }
}

#[test]
fn hyphens_become_underscores() {
    assert_eq!(crate_ident("my-crate"), "my_crate");
    assert_eq!(crate_ident("a-b-c"), "a_b_c");
    assert_eq!(crate_ident("--"), "__");
    assert_eq!(crate_ident("plain"), "plain");
    assert_eq!(crate_ident("under_score"), "under_score");
    assert_eq!(crate_ident(""), "");
    assert_eq!(crate_ident("gr\u{fc}n-\u{2713}"), "gr\u{fc}n_\u{2713}");
    assert_eq!(crate_ident("x-y"), "x-y".replace("-", "_"));
}
