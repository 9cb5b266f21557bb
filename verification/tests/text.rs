use anistats::text::{
    format_decimal, join, lexically_at_most, parse_decimal, same_text, titlecase,
};

#[test]
fn decimal_numerals_have_no_sign_padding_or_separators() {
    assert_eq!(format_decimal(0), "0");
    assert_eq!(format_decimal(7), "7");
    assert_eq!(format_decimal(10), "10");
    assert_eq!(format_decimal(120), "120");
    assert_eq!(format_decimal(1000000), "1000000");
    assert_eq!(format_decimal(u32::MAX), "4294967295");
}

#[test]
fn decimal_numerals_agree_with_the_standard_formatting() {
    for n in [0u32, 1, 9, 10, 11, 99, 100, 101, 65535, 65536, 999999999, 1000000000, u32::MAX] {
        assert_eq!(format_decimal(n), n.to_string());
    }
}

#[test]
fn parse_decimal_reads_numerals() {
    assert_eq!(parse_decimal("0"), Some(0));
    assert_eq!(parse_decimal("120"), Some(120));
    assert_eq!(parse_decimal("007"), Some(7));
    assert_eq!(parse_decimal("4294967295"), Some(u32::MAX));
    assert_eq!(parse_decimal("0000000004294967295"), Some(u32::MAX));
}

#[test]
fn parse_decimal_refuses_what_is_no_numeral() {
    assert_eq!(parse_decimal(""), None);
    assert_eq!(parse_decimal(" 1"), None);
    assert_eq!(parse_decimal("1 "), None);
    assert_eq!(parse_decimal("+1"), None);
    assert_eq!(parse_decimal("-1"), None);
    assert_eq!(parse_decimal("1,000"), None);
    assert_eq!(parse_decimal("12a"), None);
    assert_eq!(parse_decimal("a12"), None);
    assert_eq!(parse_decimal("١٢"), None);
}

#[test]
fn parse_decimal_refuses_numbers_above_the_range() {
    assert_eq!(parse_decimal("4294967296"), None);
    assert_eq!(parse_decimal("4294967300"), None);
    assert_eq!(parse_decimal("42949672950"), None);
    assert_eq!(parse_decimal("99999999999999999999999999"), None);
    assert_eq!(parse_decimal("4294967296x"), None);
}

#[test]
fn formatting_then_parsing_gives_the_number_back() {
    for n in [0u32, 1, 9, 10, 42, 120, 1439, 1440, 99999, 4294967294, u32::MAX] {
        assert_eq!(parse_decimal(&format_decimal(n)), Some(n));
    }
}

#[test]
fn titlecase_raises_the_first_letter_and_lowers_the_rest() {
    assert_eq!(titlecase("COMPLETED".to_string()), "Completed");
    assert_eq!(titlecase("completed".to_string()), "Completed");
    assert_eq!(titlecase("cOmPlEtEd".to_string()), "Completed");
    assert_eq!(titlecase("PLANNING".to_string()), "Planning");
    assert_eq!(titlecase("a".to_string()), "A");
    assert_eq!(titlecase("Z".to_string()), "Z");
}

#[test]
fn titlecase_keeps_the_empty_word_and_what_is_no_ascii_letter() {
    assert_eq!(titlecase(String::new()), "");
    assert_eq!(titlecase("ON_HOLD 2".to_string()), "On_hold 2");
    assert_eq!(titlecase("1ST".to_string()), "1st");
    assert_eq!(titlecase("éTÉ".to_string()), "étÉ");
    assert_eq!(titlecase("@[`{".to_string()), "@[`{");
}

#[test]
fn titlecase_applied_twice_changes_nothing_more() {
    for word in ["REPEATING", "dropped", "mIxEd CaSe", "", "x"] {
        let once = titlecase(word.to_string());
        assert_eq!(titlecase(once.clone()), once);
    }
}

#[test]
fn join_puts_the_separator_between_neighbours_only() {
    let none: Vec<String> = vec![];
    assert_eq!(join(&none, ", "), "");
    assert_eq!(join(&vec!["Action".to_string()], ", "), "Action");
    assert_eq!(
        join(&vec!["Action".to_string(), "Comedy".to_string(), "Drama".to_string()], ", "),
        "Action, Comedy, Drama"
    );
    assert_eq!(join(&vec![String::new(), String::new()], "-"), "-");
    assert_eq!(join(&vec!["a".to_string(), "b".to_string()], ""), "ab");
}

#[test]
fn lexical_order_goes_by_the_first_difference() {
    assert!(lexically_at_most("", ""));
    assert!(lexically_at_most("", "A"));
    assert!(!lexically_at_most("A", ""));
    assert!(lexically_at_most("COMPLETED", "CURRENT"));
    assert!(!lexically_at_most("CURRENT", "COMPLETED"));
    assert!(lexically_at_most("PAUSED", "PLANNING"));
    assert!(lexically_at_most("PLAN", "PLANNING"));
    assert!(!lexically_at_most("PLANNING", "PLAN"));
    assert!(lexically_at_most("DROPPED", "DROPPED"));
    assert!(lexically_at_most("Z", "a"));
    assert!(lexically_at_most("z", "é"));
}

#[test]
fn lexical_order_agrees_with_the_order_of_strings() {
    let words =
        ["", "A", "AB", "B", "COMPLETED", "CURRENT", "a", "é", "𝄞", "PAUSED", "PLANNING"];
    for a in words {
        for b in words {
            assert_eq!(lexically_at_most(a, b), a <= b);
        }
    }
}

#[test]
fn same_text_compares_character_by_character() {
    assert!(same_text("", ""));
    assert!(same_text("CURRENT", "CURRENT"));
    assert!(!same_text("CURRENT", "current"));
    assert!(!same_text("CURRENT", "CURREN"));
    assert!(!same_text("", "x"));
}
