use tree_cleaner::text::{
    chars_of, contains_chars, len_utf8, parse_unsigned_chars, remove_all_chars, string_of, trim_chars,
};

#[test]
fn trimming_and_removing() {
    let chars = chars_of("\u{3000} a b \t");
    assert_eq!(string_of(&trim_chars(&chars)), "a b");
    assert_eq!(string_of(&remove_all_chars(&chars_of("1_000_0"), '_')), "10000");
}

#[test]
fn parsing_unsigned_numbers() {
    assert_eq!(parse_unsigned_chars(&chars_of("ff"), 16, u64::from(u32::MAX)), Some(255));
    assert_eq!(parse_unsigned_chars(&chars_of("+12"), 10, 255), Some(12));
    assert_eq!(parse_unsigned_chars(&chars_of("256"), 10, 255), None);
    assert_eq!(parse_unsigned_chars(&chars_of("+"), 10, 255), None);
    assert_eq!(parse_unsigned_chars(&chars_of(""), 10, 255), None);
    assert_eq!(parse_unsigned_chars(&chars_of("1a"), 10, 255), None);
}

#[test]
fn utf8_lengths() {
    assert_eq!(len_utf8('a'), 1);
    assert_eq!(len_utf8('é'), 2);
    assert_eq!(len_utf8('日'), 3);
    assert_eq!(len_utf8('🦀'), 4);
}

#[test]
fn substrings() {
    assert!(contains_chars(&chars_of("photos"), &chars_of("oto")));
    assert!(contains_chars(&chars_of("photos"), &chars_of("")));
    assert!(!contains_chars(&chars_of("pho"), &chars_of("photos")));
    assert!(!contains_chars(&chars_of("photos"), &chars_of("tot")));
}
