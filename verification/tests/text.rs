use web_crawler::common::text::chars_of;
use web_crawler::common::text::contains_chars;
use web_crawler::common::text::ends_with;
use web_crawler::common::text::ends_with_any;
use web_crawler::common::text::find_char;
use web_crawler::common::text::is_text;
use web_crawler::common::text::is_whitespace;
use web_crawler::common::text::lowercase_of;
use web_crawler::common::text::parse_decimal;
use web_crawler::common::text::push_decimal;
use web_crawler::common::text::same_chars;
use web_crawler::common::text::slice_of;
use web_crawler::common::text::starts_with;
use web_crawler::common::text::starts_with_any;
use web_crawler::common::text::string_of;
use web_crawler::common::text::trim;
use web_crawler::common::text::trim_bounds;

fn cs(s: &str) -> Vec<char> {
    s.chars().collect()
}

#[test]
fn chars_of_gives_the_characters_in_order() {
    assert_eq!(chars_of("héllo"), vec!['h', 'é', 'l', 'l', 'o']);
    assert_eq!(chars_of(""), Vec::<char>::new());
}

#[test]
fn string_of_and_slice_of_cut_a_range() {
    let v = cs("hello world");
    assert_eq!(string_of(&v, 6, 11), "world");
    assert_eq!(string_of(&v, 3, 3), "");
    assert_eq!(slice_of(&v, 0, 5), cs("hello"));
}

#[test]
fn find_char_finds_the_first_or_the_end() {
    let v = cs("a:b:c");
    assert_eq!(find_char(&v, 0, 5, ':'), 1);
    assert_eq!(find_char(&v, 2, 5, ':'), 3);
    assert_eq!(find_char(&v, 4, 5, ':'), 5);
    assert_eq!(find_char(&v, 0, 1, ':'), 1);
    assert_eq!(find_char(&v, 0, 0, ':'), 0);
}

#[test]
fn trim_removes_whitespace_at_both_ends_only() {
    assert_eq!(trim("  a b \t\r\n"), "a b");
    assert_eq!(trim("\u{a0}\u{3000}x\u{2028}"), "x");
    assert_eq!(trim("   "), "");
    assert_eq!(trim(""), "");
    assert_eq!(trim("x"), "x");
    let v = cs("  ab  ");
    assert_eq!(trim_bounds(&v, 0, 6), (2, 4));
    assert_eq!(trim_bounds(&v, 3, 6), (3, 4));
    assert_eq!(trim_bounds(&v, 4, 6), (6, 6));
}

#[test]
fn lowercase_follows_unicode() {
    let v = cs("ÀbC\u{212a}");
    assert_eq!(lowercase_of(&v, 0, 4), cs("àbck"));
    assert_eq!(lowercase_of(&v, 1, 3), cs("bc"));
}

#[test]
fn prefix_suffix_and_substring() {
    assert!(starts_with(&cs("/private/x"), &cs("/private/")));
    assert!(starts_with(&cs("abc"), &cs("")));
    assert!(!starts_with(&cs("/priv"), &cs("/private/")));
    assert!(!starts_with(&cs("abc"), &cs("abd")));
    assert!(ends_with(&cs("image.jpg"), &cs(".jpg")));
    assert!(ends_with(&cs("x"), &cs("")));
    assert!(!ends_with(&cs("jpg"), &cs(".jpg")));
    assert!(!ends_with(&cs("image.jpg"), &cs(".png")));
    assert!(contains_chars(&cs("text/html; charset=utf-8"), &cs("text/html")));
    assert!(contains_chars(&cs("abc"), &cs("")));
    assert!(contains_chars(&cs("abc"), &cs("c")));
    assert!(contains_chars(&cs("aab"), &cs("ab")));
    assert!(!contains_chars(&cs("abc"), &cs("abcd")));
    assert!(!contains_chars(&cs("abc"), &cs("ca")));
    assert!(!contains_chars(&cs(""), &cs("a")));
}

#[test]
fn lists_of_prefixes_and_suffixes() {
    let list = [".jpg", ".png"];
    assert!(ends_with_any(&cs("a.png"), &list));
    assert!(!ends_with_any(&cs("a.gif"), &list));
    assert!(!ends_with_any(&cs("a.png"), &[]));
    let prefixes = vec!["/a/".to_string(), "/b".to_string()];
    assert!(starts_with_any(&cs("/b/c"), &prefixes));
    assert!(!starts_with_any(&cs("/c"), &prefixes));
    assert!(!starts_with_any(&cs("/b"), &Vec::new()));
}

#[test]
fn same_chars_and_is_text() {
    assert!(same_chars(&cs("abc"), &cs("abc")));
    assert!(!same_chars(&cs("abc"), &cs("abd")));
    assert!(!same_chars(&cs("abc"), &cs("ab")));
    assert!(is_text(&cs("allow"), "allow"));
    assert!(!is_text(&cs("allow"), "disallow"));
}

#[test]
fn parse_decimal_reads_unsigned_numbers() {
    assert_eq!(parse_decimal(&cs("0")), Some(0));
    assert_eq!(parse_decimal(&cs("1")), Some(1));
    assert_eq!(parse_decimal(&cs("+15")), Some(15));
    assert_eq!(parse_decimal(&cs("007")), Some(7));
    assert_eq!(parse_decimal(&cs("18446744073709551615")), Some(u64::MAX));
}

#[test]
fn parse_decimal_rejects_everything_else() {
    assert_eq!(parse_decimal(&cs("")), None);
    assert_eq!(parse_decimal(&cs("+")), None);
    assert_eq!(parse_decimal(&cs("-1")), None);
    assert_eq!(parse_decimal(&cs("1.5")), None);
    assert_eq!(parse_decimal(&cs("1 ")), None);
    assert_eq!(parse_decimal(&cs("++1")), None);
    assert_eq!(parse_decimal(&cs("1_000")), None);
    assert_eq!(parse_decimal(&cs("١")), None);
    assert_eq!(parse_decimal(&cs("18446744073709551616")), None);
    assert_eq!(parse_decimal(&cs("99999999999999999999999")), None);
}

#[test]
fn parse_decimal_agrees_with_the_standard_parser() {
    for s in ["0", "42", "+42", "-42", "", "+", "4 2", "18446744073709551615", "18446744073709551616", "000000000000000000000000001"] {
        assert_eq!(parse_decimal(&cs(s)), s.parse::<u64>().ok(), "{}", s);
    }
}

#[test]
fn push_decimal_writes_a_number() {
    let mut s = String::from("HTTP ");
    push_decimal(&mut s, 404);
    assert_eq!(s, "HTTP 404");
    let mut z = String::new();
    push_decimal(&mut z, 0);
    assert_eq!(z, "0");
    let mut m = String::new();
    push_decimal(&mut m, u64::MAX);
    assert_eq!(m, "18446744073709551615");
    let mut t = String::new();
    push_decimal(&mut t, 1000);
    assert_eq!(t, "1000");
}

#[test]
fn whitespace_is_the_unicode_property() {
    let mut count = 0;
    for code in 0u32..=0x10ffff {
        if let Some(c) = char::from_u32(code) {
            assert_eq!(is_whitespace(c), c.is_whitespace(), "U+{:04X}", code);
            if is_whitespace(c) {
                count += 1;
            }
        }
    }
    assert_eq!(count, 25);
    assert!(is_whitespace(' '));
    assert!(is_whitespace('\t'));
    assert!(is_whitespace('\r'));
    assert!(is_whitespace('\u{3000}'));
    assert!(!is_whitespace('a'));
    assert!(!is_whitespace('\u{200b}'));
    assert!(!is_whitespace('\u{feff}'));
}
