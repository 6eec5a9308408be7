use worker_bridge::text::{chars_of, chain, decimal_text, find_from, starts_with};

fn chars(s: &str) -> Vec<char> {
    s.chars().collect()
}

#[test]
fn concat_appends() {
    assert_eq!(chain("worker ", "bridge"), "worker bridge");
    assert_eq!(chain("", "x"), "x");
    assert_eq!(chain("x", ""), "x");
    assert_eq!(chain("\u{e9}", "\u{4e2d}"), "\u{e9}\u{4e2d}");
}

#[test]
fn chars_of_lists_the_characters() {
    assert_eq!(chars_of("a:\u{e9}\u{4e2d}"), vec!['a', ':', '\u{e9}', '\u{4e2d}']);
    assert_eq!(chars_of(""), Vec::<char>::new());
}

#[test]
fn starts_with_compares_the_beginning() {
    assert!(starts_with(&chars("PROGRESS:x"), &chars("PROGRESS:")));
    assert!(starts_with(&chars("PROGRESS:"), &chars("PROGRESS:")));
    assert!(starts_with(&chars("abc"), &chars("")));
    assert!(starts_with(&chars(""), &chars("")));
    assert!(!starts_with(&chars("PROGRES"), &chars("PROGRESS:")));
    assert!(!starts_with(&chars("xPROGRESS:"), &chars("PROGRESS:")));
    assert!(!starts_with(&chars("PROGRESS;"), &chars("PROGRESS:")));
}

#[test]
fn find_from_gives_the_first_position_or_the_length() {
    let text = chars("a:b:c");
    assert_eq!(find_from(&text, ':', 0), 1);
    assert_eq!(find_from(&text, ':', 1), 1);
    assert_eq!(find_from(&text, ':', 2), 3);
    assert_eq!(find_from(&text, ':', 4), 5);
    assert_eq!(find_from(&text, ':', 5), 5);
    assert_eq!(find_from(&text, ':', 99), 5);
    assert_eq!(find_from(&text, 'z', 0), 5);
    assert_eq!(find_from(&chars(""), ':', 0), 0);
}

#[test]
fn decimal_text_writes_every_number_as_the_standard_does() {
    for n in [
        0,
        1,
        -1,
        9,
        10,
        11,
        99,
        100,
        101,
        -10,
        12345,
        -98765,
        1000000000,
        i32::MAX,
        i32::MIN,
        i32::MIN + 1,
    ] {
        assert_eq!(decimal_text(n), n.to_string());
    }
    assert_eq!(decimal_text(-2147483648), "-2147483648");
    assert_eq!(decimal_text(2147483647), "2147483647");
    assert_eq!(decimal_text(407), "407");
}
