use essentialscode::pattern::group_text;
use essentialscode::scanner::{process_compiler_errors, trim_all};
use essentialscode::text::{parse_position, parse_u32};

#[test]
fn parse_u32_reads_decimal_numbers() {
    assert_eq!(parse_u32("0"), Some(0));
    assert_eq!(parse_u32("7"), Some(7));
    assert_eq!(parse_u32("15"), Some(15));
    assert_eq!(parse_u32("0015"), Some(15));
    assert_eq!(parse_u32("+42"), Some(42));
    assert_eq!(parse_u32("4294967295"), Some(u32::MAX));
    assert_eq!(parse_u32("00000000000000000000004294967295"), Some(u32::MAX));
}

#[test]
fn parse_u32_rejects_what_is_no_number() {
    assert_eq!(parse_u32(""), None);
    assert_eq!(parse_u32("+"), None);
    assert_eq!(parse_u32("++1"), None);
    assert_eq!(parse_u32("-1"), None);
    assert_eq!(parse_u32("1 "), None);
    assert_eq!(parse_u32(" 1"), None);
    assert_eq!(parse_u32("12a"), None);
    assert_eq!(parse_u32("1+2"), None);
    assert_eq!(parse_u32("\u{0663}"), None);
    assert_eq!(parse_u32("4294967296"), None);
    assert_eq!(parse_u32("99999999999999999999999999"), None);
}

#[test]
fn parse_u32_agrees_with_the_standard_library() {
    for text in ["0", "1", "+1", "-1", "", "+", "10", "4294967295", "4294967296", "1_000", "0x10", "٣"] {
        assert_eq!(parse_u32(text), text.parse::<u32>().ok(), "{:?}", text);
    }
}

#[test]
fn group_text_is_none_out_of_range_and_for_silent_groups() {
    let groups = vec![Some("whole".to_string()), None, Some("two".to_string())];
    assert_eq!(group_text(&groups, 0), Some("whole"));
    assert_eq!(group_text(&groups, 1), None);
    assert_eq!(group_text(&groups, 2), Some("two"));
    assert_eq!(group_text(&groups, 3), None);
}

#[test]
fn every_built_in_pattern_compiles() {
    assert!(essentialscode::parser::check_patterns());
    assert!(essentialscode::scanner::check_all_patterns());
}

#[test]
fn parse_position_reads_numbers_from_one_up() {
    assert_eq!(parse_position("1"), Some(1));
    assert_eq!(parse_position("+1"), Some(1));
    assert_eq!(parse_position("010"), Some(10));
    assert_eq!(parse_position("4294967295"), Some(u32::MAX));
    assert_eq!(parse_position("0"), None);
    assert_eq!(parse_position("+0"), None);
    assert_eq!(parse_position("0000"), None);
    assert_eq!(parse_position(""), None);
    assert_eq!(parse_position("x"), None);
    assert_eq!(parse_position("4294967296"), None);
}

fn error_lines(output: &str) -> Vec<String> {
    process_compiler_errors(output).error_lines
}

#[test]
fn lines_end_at_a_line_feed_with_or_without_a_carriage_return() {
    assert_eq!(error_lines("a error:\nb error:"), vec!["a error:", "b error:"]);
    assert_eq!(error_lines("a error:\nb error:\n"), vec!["a error:", "b error:"]);
    assert_eq!(error_lines("a error:\r\nb error:\r\n"), vec!["a error:", "b error:"]);
    // Only one carriage return belongs to the terminator.
    assert_eq!(error_lines("a error:\r\r\n"), vec!["a error:\r"]);
    // A carriage return alone ends no line, and stays at the end of the text.
    assert_eq!(error_lines("a error:\rb error:"), vec!["a error:\rb error:"]);
    assert_eq!(error_lines("a error:\nb error:\r"), vec!["a error:", "b error:\r"]);
    // Empty lines are lines; nothing follows a final line feed.
    assert_eq!(error_lines("error:\n\nerror:\n\n"), vec!["error:", "error:"]);
    assert_eq!(process_compiler_errors("\n\n").count(), 0);
    assert_eq!(error_lines("error:"), vec!["error:"]);
    assert_eq!(error_lines(""), Vec::<String>::new());
}

fn trimmed(text: &str) -> String {
    trim_all(&vec![text.to_string()]).remove(0)
}

#[test]
fn trimming_strips_white_space_from_both_ends_only() {
    assert_eq!(trimmed("  a b  "), "a b");
    assert_eq!(trimmed("\t\r\n a\u{b}\u{c}"), "a");
    assert_eq!(trimmed("\u{a0}a\u{3000}"), "a");
    assert_eq!(trimmed("a"), "a");
    assert_eq!(trimmed(""), "");
    assert_eq!(trimmed(" \n\t "), "");
    // Neither a zero-width space nor a byte-order mark is white space.
    assert_eq!(trimmed("\u{200b}a\u{feff}"), "\u{200b}a\u{feff}");
    assert_eq!(trimmed(" \u{1f} a \u{180e} "), "\u{1f} a \u{180e}");
}

#[test]
fn white_space_is_the_unicode_property() {
    let singles = [
        '\u{20}', '\u{85}', '\u{a0}', '\u{1680}', '\u{2028}', '\u{2029}', '\u{202f}',
        '\u{205f}', '\u{3000}',
    ];
    for code in 0..=0x10ffffu32 {
        if let Some(c) = char::from_u32(code) {
            let expected = ('\u{9}'..='\u{d}').contains(&c)
                || ('\u{2000}'..='\u{200a}').contains(&c)
                || singles.contains(&c);
            assert_eq!(trimmed(&c.to_string()).is_empty(), expected, "U+{:04X}", code);
            if !expected {
                assert_eq!(trimmed(&format!(" {} ", c)), c.to_string(), "U+{:04X}", code);
            }
        }
    }
}
