use image_resolver::sniff::is_gif;
use image_resolver::text::{
    chars_of, decimal_text, find, has_prefix, has_suffix, matches_at, parse_u64, replace,
    same_text, slice, strip_brackets, text_after_last,
};

#[test]
fn chars_of_keeps_every_character() {
    assert_eq!(chars_of("héllo"), vec!['h', 'é', 'l', 'l', 'o']);
    assert_eq!(chars_of(""), Vec::<char>::new());
}

#[test]
fn find_gives_the_first_occurrence() {
    let hay = chars_of("abcabcabc");
    let needle = chars_of("bc");
    assert_eq!(find(&hay, &needle, 0), Some(1));
    assert_eq!(find(&hay, &needle, 1), Some(1));
    assert_eq!(find(&hay, &needle, 2), Some(4));
    assert_eq!(find(&hay, &needle, 8), None);
    assert_eq!(find(&hay, &needle, 100), None);
    assert_eq!(find(&hay, &chars_of("x"), 0), None);
    assert_eq!(find(&chars_of("a"), &chars_of("abc"), 0), None);
}

#[test]
fn find_counts_characters_not_bytes() {
    let hay = chars_of("ééé\"x");
    assert_eq!(find(&hay, &chars_of("\""), 0), Some(3));
}

#[test]
fn matches_at_checks_one_position() {
    let hay = chars_of("hello");
    assert!(matches_at(&hay, &chars_of("ell"), 1));
    assert!(!matches_at(&hay, &chars_of("ell"), 2));
    assert!(!matches_at(&hay, &chars_of("lo"), 4));
    assert!(matches_at(&hay, &chars_of(""), 5));
    assert!(!matches_at(&hay, &chars_of(""), 6));
}

#[test]
fn slice_cuts_a_range() {
    assert_eq!(slice(&chars_of("hello"), 1, 3), vec!['e', 'l']);
    assert_eq!(slice(&chars_of("hello"), 2, 2), Vec::<char>::new());
}

#[test]
fn suffix_and_prefix() {
    assert!(has_suffix("photo.png", ".png"));
    assert!(!has_suffix("photo.PNG", ".png"));
    assert!(!has_suffix("png", ".png"));
    assert!(has_suffix("x", ""));
    assert!(has_prefix("a_1234", "a_"));
    assert!(!has_prefix("b_1234", "a_"));
    assert!(!has_prefix("a", "a_"));
}

#[test]
fn same_text_compares_characters() {
    assert!(same_text("image", "image"));
    assert!(!same_text("image", "Image"));
    assert!(!same_text("image", "images"));
}

#[test]
fn text_after_last_gives_the_extension() {
    assert_eq!(text_after_last("pic.bmp", '.'), "bmp");
    assert_eq!(text_after_last("archive.tar.gz", '.'), "gz");
    assert_eq!(text_after_last("noextension", '.'), "noextension");
    assert_eq!(text_after_last("trailing.", '.'), "");
    assert_eq!(text_after_last("", '.'), "");
}

#[test]
fn strip_brackets_removes_enclosing_angle_brackets() {
    assert_eq!(strip_brackets("<https://example.com/a.png>"), "https://example.com/a.png");
    assert_eq!(strip_brackets("https://example.com/a.png"), "https://example.com/a.png");
    assert_eq!(strip_brackets("<<>a<b>><"), "a<b");
    assert_eq!(strip_brackets("<><>"), "");
    assert_eq!(strip_brackets(""), "");
}

#[test]
fn replace_replaces_every_occurrence() {
    assert_eq!(
        replace("https:\\u002F\\u002Fmedia.tenor.com\\u002Fa.gif", "\\u002F", "/"),
        "https://media.tenor.com/a.gif"
    );
    assert_eq!(replace("aaaa", "aa", "b"), "bb");
    assert_eq!(replace("aaa", "aa", "b"), "ba");
    assert_eq!(replace("abc", "x", "y"), "abc");
    assert_eq!(replace("abc", "", "y"), "abc");
    assert_eq!(replace("", "a", "y"), "");
}

#[test]
fn decimal_text_writes_numbers() {
    assert_eq!(decimal_text(0), "0");
    assert_eq!(decimal_text(7), "7");
    assert_eq!(decimal_text(42), "42");
    assert_eq!(decimal_text(1234567890), "1234567890");
    assert_eq!(decimal_text(u64::MAX), "18446744073709551615");
}

#[test]
fn parse_u64_reads_decimal_numbers() {
    assert_eq!(parse_u64("0"), Some(0));
    assert_eq!(parse_u64("10485760"), Some(10485760));
    assert_eq!(parse_u64("+15"), Some(15));
    assert_eq!(parse_u64("007"), Some(7));
    assert_eq!(parse_u64("18446744073709551615"), Some(u64::MAX));
}

#[test]
fn parse_u64_refuses_what_is_no_number() {
    assert_eq!(parse_u64(""), None);
    assert_eq!(parse_u64("+"), None);
    assert_eq!(parse_u64("-5"), None);
    assert_eq!(parse_u64("++5"), None);
    assert_eq!(parse_u64("12a"), None);
    assert_eq!(parse_u64(" 12"), None);
    assert_eq!(parse_u64("1.5"), None);
    assert_eq!(parse_u64("18446744073709551616"), None);
    assert_eq!(parse_u64("99999999999999999999999"), None);
}

#[test]
fn parse_u64_agrees_with_the_standard_library() {
    let samples = [
        "0", "1", "+1", "-1", "", "+", "00", "123456", "18446744073709551615",
        "18446744073709551616", "1e3", "٣", "12 ",
    ];
    for s in samples {
        assert_eq!(parse_u64(s), u64::from_str_radix(s, 10).ok(), "{}", s);
    }
}

#[test]
fn is_gif_knows_both_revisions() {
    assert!(is_gif(&b"GIF89a\x01\x02".to_vec()));
    assert!(is_gif(&b"GIF87a".to_vec()));
    assert!(!is_gif(&b"GIF88a".to_vec()));
    assert!(!is_gif(&b"\x89PNG\r\n\x1a\n".to_vec()));
    assert!(!is_gif(&b"gif89a".to_vec()));
}
