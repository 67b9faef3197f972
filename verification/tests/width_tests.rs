use prhub::width::{advance_width, unicode_display_width, unicode_truncate_to_width};
use unicode_width::{UnicodeWidthChar, UnicodeWidthStr};

#[test]
fn display_width_of_ascii_and_wide_text() {
    assert_eq!(unicode_display_width("".to_string()), 0);
    assert_eq!(unicode_display_width("abc".to_string()), 3);
    assert_eq!(unicode_display_width("世界".to_string()), 4);
    assert_eq!(unicode_display_width("Ｈｅｌｌｏ".to_string()), 10);
}

#[test]
fn display_width_is_the_crates_width() {
    for text in ["", "a", "héllo", "世界!", "e\u{301}", "a\tb", "\r\n"] {
        assert_eq!(unicode_display_width(text.to_string()), UnicodeWidthStr::width(text));
    }
}

#[test]
fn advance_width_adds_while_it_fits() {
    assert_eq!(advance_width(0, Some(1), 5), Some(1));
    assert_eq!(advance_width(4, Some(1), 5), Some(5));
    assert_eq!(advance_width(4, Some(2), 5), None);
    assert_eq!(advance_width(5, Some(0), 5), Some(5));
    assert_eq!(advance_width(5, None, 5), Some(5));
    assert_eq!(advance_width(0, Some(1), 0), None);
    assert_eq!(advance_width(0, None, 0), Some(0));
}

#[test]
fn advance_width_does_not_overflow() {
    assert_eq!(advance_width(usize::MAX, Some(1), usize::MAX), None);
    assert_eq!(advance_width(usize::MAX, Some(0), usize::MAX), Some(usize::MAX));
    assert_eq!(advance_width(usize::MAX - 1, Some(1), usize::MAX), Some(usize::MAX));
    assert_eq!(advance_width(1, Some(usize::MAX), usize::MAX), None);
}

#[test]
fn truncate_ascii() {
    assert_eq!(unicode_truncate_to_width("hello world".to_string(), 5), "hello");
    assert_eq!(unicode_truncate_to_width("hello".to_string(), 5), "hello");
    assert_eq!(unicode_truncate_to_width("hello".to_string(), 100), "hello");
    assert_eq!(unicode_truncate_to_width("hello".to_string(), 0), "");
    assert_eq!(unicode_truncate_to_width("".to_string(), 3), "");
}

#[test]
fn truncate_wide_characters_are_not_split() {
    assert_eq!(unicode_truncate_to_width("世界".to_string(), 4), "世界");
    assert_eq!(unicode_truncate_to_width("世界".to_string(), 3), "世");
    assert_eq!(unicode_truncate_to_width("世界".to_string(), 2), "世");
    assert_eq!(unicode_truncate_to_width("世界".to_string(), 1), "");
    assert_eq!(unicode_truncate_to_width("a世b".to_string(), 2), "a");
    assert_eq!(unicode_truncate_to_width("a世b".to_string(), 3), "a世");
}

#[test]
fn truncate_counts_control_and_combining_characters_as_nothing() {
    assert_eq!(unicode_truncate_to_width("a\tb".to_string(), 2), "a\tb");
    assert_eq!(unicode_truncate_to_width("\n\n\n".to_string(), 0), "\n\n\n");
    assert_eq!(unicode_truncate_to_width("e\u{301}x".to_string(), 1), "e\u{301}");
}

#[test]
fn truncate_stops_at_first_character_that_does_not_fit() {
    // The narrow character after the wide one would fit, but the cut is a
    // beginning of the text.
    assert_eq!(unicode_truncate_to_width("ab世c".to_string(), 3), "ab");
}

#[test]
fn truncate_result_is_longest_fitting_prefix() {
    let text = "a世b界c\u{301}d";
    let chars: Vec<char> = text.chars().collect();
    for max in 0..12usize {
        let cut = unicode_truncate_to_width(text.to_string(), max);
        let n = cut.chars().count();
        assert!(text.starts_with(cut.as_str()));
        let total: usize = cut.chars().map(|c| c.width().unwrap_or(0)).sum();
        assert!(total <= max);
        if n < chars.len() {
            assert!(total + chars[n].width().unwrap_or(0) > max);
        }
    }
}
