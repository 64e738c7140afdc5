use sphinx_inv::record::{find_record, CharClass};
use sphinx_inv::text::{
    chars_of, decimal_digit, find_text, parse_usize, replaced, trim_bounds, white_space,
};

fn trimmed(s: &str) -> String {
    let cs = chars_of(s);
    let (lo, hi) = trim_bounds(&cs);
    cs[lo..hi].iter().collect()
}

#[test]
fn trimming_uses_unicode_white_space() {
    assert_eq!(trimmed("  a b \t\n"), "a b");
    assert_eq!(trimmed("\u{3000}x\u{a0}"), "x");
    assert_eq!(trimmed("\u{200b}x"), "\u{200b}x");
    assert_eq!(trimmed("   "), "");
    assert_eq!(trimmed(""), "");
}

#[test]
fn character_classes() {
    assert!(white_space('\u{85}'));
    assert!(white_space('\u{2029}'));
    assert!(!white_space('x'));
    assert!(decimal_digit('7'));
    assert!(decimal_digit('\u{663}'));
    assert!(decimal_digit('\u{1d7ff}'));
    assert!(!decimal_digit('\u{bc}'));
    assert!(CharClass::NonBlank.test('a'));
    assert!(!CharClass::Blank.test('a'));
}

#[test]
fn numbers_read_as_usize() {
    assert_eq!(parse_usize(&chars_of("2")), Some(2));
    assert_eq!(parse_usize(&chars_of("+17")), Some(17));
    assert_eq!(parse_usize(&chars_of("007")), Some(7));
    assert_eq!(parse_usize(&chars_of("+")), None);
    assert_eq!(parse_usize(&chars_of("")), None);
    assert_eq!(parse_usize(&chars_of("-1")), None);
    assert_eq!(parse_usize(&chars_of("1.5")), None);
    assert_eq!(parse_usize(&chars_of("\u{663}")), None);
    assert_eq!(
        parse_usize(&chars_of(&usize::MAX.to_string())),
        Some(usize::MAX)
    );
    assert_eq!(parse_usize(&chars_of("184467440737095516160")), None);
}

#[test]
fn text_search_and_replacement() {
    assert!(find_text(&chars_of("compressed using zlib."), "zlib"));
    assert!(!find_text(&chars_of("compressed using zli"), "zlib"));
    assert!(find_text(&chars_of(""), ""));
    assert_eq!(replaced(&chars_of("a$b$"), '$', &chars_of("xy")), "axybxy");
    assert_eq!(replaced(&chars_of("none"), '$', &chars_of("xy")), "none");
}

#[test]
fn first_record_starts_on_the_first_line_that_has_one() {
    let cs = chars_of("no record\nname py:class 1 loc -");
    let (st, e, f) = find_record(&cs).unwrap();
    assert_eq!((st, e), (10, 14));
    assert_eq!((f.type_start, f.type_end), (15, 23));
    assert_eq!((f.priority_start, f.priority_end), (24, 25));
    assert_eq!((f.location_start, f.location_end), (26, 29));
    assert_eq!((f.dispname_start, f.dispname_end), (30, 31));
    assert!(find_record(&chars_of("a b c")).is_none());
}
