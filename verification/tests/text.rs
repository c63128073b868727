use usage_monitor::text::chars_of;
use usage_monitor::text::decimal;
use usage_monitor::text::eq_ignore_ascii_case;
use usage_monitor::text::format_with_commas;
use usage_monitor::text::join2;
use usage_monitor::text::join3;
use usage_monitor::text::replace;
use usage_monitor::text::same_text;
use usage_monitor::text::split_once;
use usage_monitor::text::text_of;
use usage_monitor::text::trim_end;

#[test]
fn thousands_are_set_apart() {
    assert_eq!(format_with_commas(0), "0");
    assert_eq!(format_with_commas(999), "999");
    assert_eq!(format_with_commas(1000), "1,000");
    assert_eq!(format_with_commas(12345), "12,345");
    assert_eq!(format_with_commas(1234567), "1,234,567");
    assert_eq!(format_with_commas(u64::MAX), "18,446,744,073,709,551,615");
    assert_eq!(decimal(u64::MAX), "18446744073709551615");
    for n in [0, 7, 10, 999, 1000, 100_000, 987_654_321] {
        assert_eq!(format_with_commas(n).replace(',', ""), n.to_string());
    }
}

#[test]
fn texts_are_put_together_and_taken_apart() {
    assert_eq!(join2("a", "b"), "ab");
    assert_eq!(join3("a", "", "c"), "ac");
    assert_eq!(chars_of("h\u{e9}"), vec!['h', '\u{e9}']);
    assert_eq!(text_of(&vec!['h', '\u{e9}']), "h\u{e9}");
    assert!(same_text("ab", "ab"));
    assert!(!same_text("ab", "aB"));
    assert!(!same_text("ab", "abc"));
}

#[test]
fn splits_are_those_of_the_standard_library() {
    let cases = [
        ("84% \u{b7} 2h30m", " \u{b7} "),
        ("84%", " \u{b7} "),
        ("a \u{b7} b \u{b7} c", " \u{b7} "),
        ("", "x"),
        ("abc", ""),
        ("aab", "ab"),
    ];
    for (text, separator) in cases {
        let expected = text.split_once(separator);
        let found = split_once(text, separator);
        let found = found.as_ref().map(|(a, b)| (a.as_str(), b.as_str()));
        assert_eq!(found, expected, "{text} at {separator}");
    }
}

#[test]
fn replacements_are_those_of_the_standard_library() {
    let cases = [
        ("Install {version} now? {version}!", "{version}", "2.0"),
        ("nothing", "{version}", "2.0"),
        ("aaa", "aa", "b"),
        ("", "a", "b"),
    ];
    for (text, needle, with) in cases {
        assert_eq!(replace(text, needle, with), text.replace(needle, with));
    }
}

#[test]
fn case_of_ascii_letters_does_not_count() {
    assert!(eq_ignore_ascii_case("C:\\Apps\\Usage.EXE", "c:\\apps\\usage.exe"));
    assert!(!eq_ignore_ascii_case("a", "b"));
    assert!(!eq_ignore_ascii_case("a", "ab"));
    assert!(!eq_ignore_ascii_case("\u{c4}", "\u{e4}"));
}

#[test]
fn runs_at_the_end_are_dropped() {
    assert_eq!(trim_end("ab\0\0", '\0'), "ab");
    assert_eq!(trim_end("a\0b", '\0'), "a\0b");
    assert_eq!(trim_end("\0\0", '\0'), "");
}
