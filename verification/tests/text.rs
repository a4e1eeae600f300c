use clock_rs::text::{blank, byte_len, push_decimal};

#[test]
fn blank_makes_runs_of_blanks() {
    assert_eq!(blank(0), "");
    assert_eq!(blank(1), " ");
    assert_eq!(blank(7), "       ");
    assert_eq!(blank(300).len(), 300);
    assert!(blank(300).chars().all(|c| c == ' '));
}

#[test]
fn byte_len_counts_bytes_not_characters() {
    assert_eq!(byte_len(""), 0);
    assert_eq!(byte_len("28-10-2026"), 10);
    assert_eq!(byte_len("é"), 2);
    assert_eq!(byte_len("€12"), 5);
}

#[test]
fn push_decimal_writes_numerals() {
    let mut s = String::new();
    push_decimal(&mut s, 0);
    assert_eq!(s, "0");
    push_decimal(&mut s, 7);
    assert_eq!(s, "07");
    push_decimal(&mut s, 10);
    assert_eq!(s, "0710");
    let mut s = String::from("n=");
    push_decimal(&mut s, 1_234_567_890);
    assert_eq!(s, "n=1234567890");
}

#[test]
fn push_decimal_writes_the_largest_number() {
    let mut s = String::new();
    push_decimal(&mut s, u64::MAX);
    assert_eq!(s, "18446744073709551615");
}

#[test]
fn push_decimal_agrees_with_the_standard_library() {
    for n in [0u64, 1, 9, 10, 11, 99, 100, 101, 255, 256, 999, 1000, 65_535, 359_999] {
        let mut s = String::new();
        push_decimal(&mut s, n);
        assert_eq!(s, n.to_string());
    }
}
