use scriba::center::{center_page, place_page};
use scriba::geometry::{center_columns, center_lines, Rect};
use scriba::numbers::{parse_u32, quotient_of, remainder_of, show_hours_minutes};
use scriba::style::{justify, pad, plain, rule, Line, Page};
use scriba::text::{
    byte_count, clip, contains, decimal_of, join, parse_list, sentence_of, signed_decimal_of, split,
    take, trim, trim_end, trim_start, word_of,
};

#[test]
fn text_is_cut() {
    assert_eq!(trim(" \t a b \n"), "a b");
    assert_eq!(trim_start("  a "), "a ");
    assert_eq!(trim_end(" a  "), " a");
    assert_eq!(word_of("  first second"), "first");
    assert_eq!(word_of("   "), "");
    assert_eq!(sentence_of("  Is it? Yes."), "Is it");
    assert_eq!(take("h\u{E9}llo", 2), "h\u{E9}");
    assert_eq!(byte_count("h\u{E9}"), 3);
    assert_eq!(split("a,b,,c", ','), vec!["a", "b", "", "c"]);
    assert_eq!(join(&vec!["a".into(), "b".into()], ", "), "a, b");
    assert_eq!(parse_list(" a, ,b "), vec!["a", "b"]);
    assert!(contains("it failed", "failed") && !contains("it fai", "failed"));
}

#[test]
fn numbers_are_written_and_read() {
    assert_eq!(decimal_of(0), "0");
    assert_eq!(decimal_of(u64::MAX), "18446744073709551615");
    assert_eq!(signed_decimal_of(-12), "-12");
    assert_eq!(signed_decimal_of(i64::MIN), "-9223372036854775808");
    assert_eq!(parse_u32("007"), Some(7));
    assert_eq!(parse_u32(""), None);
    assert_eq!(parse_u32("-1"), None);
    assert_eq!(parse_u32("1_000"), None);
    assert_eq!(parse_u32("99999999999"), None);
    for a in [0i64, 1, 59, 60, 3599, -1, -60, -61, i64::MAX, i64::MIN] {
        assert_eq!(quotient_of(a, 60), a / 60);
        assert_eq!(remainder_of(a, 60), a % 60);
    }
    assert_eq!(show_hours_minutes(59), "0m");
    assert_eq!(show_hours_minutes(3600), "1h 0m");
}

#[test]
fn lines_are_laid_out() {
    let l = justify(Line::of("ab", plain()), Line::of("cd", plain()), 6);
    assert_eq!(l.text(), "ab  cd");
    assert_eq!(pad("ab", 4), "ab  ");
    assert_eq!(rule(3).text(), "\u{2500}\u{2500}\u{2500}");
    let area = Rect { x: 1, y: 2, width: 10, height: 5 };
    assert_eq!(center_columns(area, 4), Rect { x: 4, y: 2, width: 4, height: 5 });
    assert_eq!(center_columns(area, 40), area);
    assert_eq!(center_lines(5, 2), 1);
}

#[test]
fn pages_are_centred_by_their_columns() {
    let area = Rect { x: 0, y: 0, width: 20, height: 5 };
    let mut p = Page::new();
    // Two wide characters take four columns.
    p.line("\u{6F22}\u{5B57}", plain());
    let placed = center_page(p, area, 0);
    assert_eq!(placed.area, Rect { x: 8, y: 0, width: 4, height: 5 });
    assert_eq!(placed.lines.lines.len(), 3);
    let placed = center_page(Page::new(), area, 30);
    assert_eq!(placed.area, area);
    let placed = place_page(Page::new(), 10, area);
    assert_eq!(placed.area.x, 5);
}

#[test]
fn white_space_is_what_unicode_says() {
    let mut found: Vec<u32> = Vec::new();
    for n in 0..0x3100u32 {
        if let Some(c) = char::from_u32(n) {
            if trim(&c.to_string()).is_empty() {
                found.push(n);
            }
        }
    }
    let mut expected: Vec<u32> = (0x9..=0xD).collect();
    expected.extend([0x20, 0x85, 0xA0, 0x1680]);
    expected.extend(0x2000..=0x200A);
    expected.extend([0x2028, 0x2029, 0x202F, 0x205F, 0x3000]);
    assert_eq!(found, expected);
    for c in ['\u{FEFF}', '\u{FFFF}', '\u{1F600}', '\u{10FFFF}'] {
        assert_eq!(trim(&c.to_string()).chars().count(), 1);
    }
}

#[test]
fn long_text_is_clipped() {
    assert_eq!(clip("abc", 3), "abc");
    assert_eq!(clip("abcd", 3), "ab\u{2026}");
    assert_eq!(clip("abcd", 1), "\u{2026}");
    assert_eq!(clip("abcd", 0), "\u{2026}");
    assert_eq!(clip("", 0), "");
}
