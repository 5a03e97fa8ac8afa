use adcs_scan::text::{chars_of, contains, contains_chars, push_decimal};

fn decimal_of(n: u64) -> String {
    let mut out = String::new();
    push_decimal(&mut out, n);
    out
}

#[test]
fn decimal_of_small_numbers() {
    assert_eq!(decimal_of(0), "0");
    assert_eq!(decimal_of(7), "7");
    assert_eq!(decimal_of(9), "9");
    assert_eq!(decimal_of(10), "10");
    assert_eq!(decimal_of(80), "80");
    assert_eq!(decimal_of(401), "401");
}

#[test]
fn decimal_of_large_numbers() {
    assert_eq!(decimal_of(65535), "65535");
    assert_eq!(decimal_of(1_000_000), "1000000");
    assert_eq!(decimal_of(u64::MAX), "18446744073709551615");
}

#[test]
fn decimal_agrees_with_the_standard_rendering() {
    for n in 0..2000u64 {
        assert_eq!(decimal_of(n), n.to_string());
    }
}

#[test]
fn decimal_is_appended() {
    let mut out = String::from("port ");
    push_decimal(&mut out, 8080);
    assert_eq!(out, "port 8080");
}

#[test]
fn chars_of_keeps_every_character() {
    assert_eq!(chars_of(""), Vec::<char>::new());
    assert_eq!(chars_of("abc"), vec!['a', 'b', 'c']);
    assert_eq!(chars_of("\u{2713}x"), vec!['\u{2713}', 'x']);
}

#[test]
fn contains_finds_a_run_anywhere() {
    assert!(contains("certsrv", "certsrv"));
    assert!(contains("xcertsrv", "certsrv"));
    assert!(contains("certsrvx", "certsrv"));
    assert!(contains("ccertsrv", "certsrv"));
    assert!(contains("cercertsrv", "certsrv"));
    assert!(!contains("certsr", "certsrv"));
    assert!(!contains("cert srv", "certsrv"));
    assert!(!contains("", "certsrv"));
}

#[test]
fn the_empty_text_is_in_every_text() {
    assert!(contains("", ""));
    assert!(contains("abc", ""));
    assert!(contains_chars(&vec![], &vec![]));
}

#[test]
fn contains_agrees_with_the_standard_search() {
    let hays = ["", "a", "ab", "aab", "abab", "baba", "aaa", "abcabcabd", "\u{e9}a\u{e9}"];
    let needles = ["", "a", "b", "ab", "ba", "aa", "abd", "abcabd", "\u{e9}", "a\u{e9}"];
    for hay in hays {
        for needle in needles {
            assert_eq!(contains(hay, needle), hay.contains(needle), "{:?} in {:?}", needle, hay);
        }
    }
}
