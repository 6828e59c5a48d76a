use wta::editing::{
    clamp_cursor_to_boundary, delete_after, delete_before, insert_char, is_word_char,
    next_char_boundary, next_word_boundary, prev_char_boundary, prev_word_boundary,
};

#[test]
fn next_word_jumps_to_end_of_current_then_next_word() {
    let s = "hello world";
    // From start → end of first word.
    assert_eq!(next_word_boundary(s, 0), 5);
    // From inside first word → end of first word.
    assert_eq!(next_word_boundary(s, 2), 5);
    // From end of first word → end of second word.
    assert_eq!(next_word_boundary(s, 5), 11);
    // From end of buffer → stays at end.
    assert_eq!(next_word_boundary(s, 11), 11);
}

#[test]
fn prev_word_jumps_to_start_of_current_then_previous_word() {
    let s = "hello world";
    assert_eq!(prev_word_boundary(s, 11), 6);
    assert_eq!(prev_word_boundary(s, 6), 0);
    assert_eq!(prev_word_boundary(s, 9), 6);
    assert_eq!(prev_word_boundary(s, 0), 0);
}

#[test]
fn word_boundary_skips_punctuation_runs() {
    let s = "foo --bar baz";
    assert_eq!(next_word_boundary(s, 3), 9);
    assert_eq!(prev_word_boundary(s, 9), 6);
}

#[test]
fn word_boundary_handles_multibyte_chars() {
    let s = "你好 world";
    assert_eq!(s.len(), 12);
    assert_eq!(next_word_boundary(s, 0), 6);
    assert_eq!(prev_word_boundary(s, 12), 7);
    assert_eq!(prev_word_boundary(s, 7), 0);
}

#[test]
fn word_boundary_handles_newlines() {
    let s = "foo\nbar";
    assert_eq!(next_word_boundary(s, 0), 3);
    assert_eq!(next_word_boundary(s, 3), 7);
    assert_eq!(prev_word_boundary(s, 7), 4);
}

#[test]
fn word_characters_are_letters_digits_and_the_underscore() {
    for c in ['a', 'Z', '7', '_', 'é', '你', '½'] {
        assert!(is_word_char(c), "{}", c);
        assert!(c == '_' || c.is_alphanumeric(), "{}", c);
    }
    for c in ['-', ' ', '\n', '.', '→', '😀'] {
        assert!(!is_word_char(c), "{}", c);
    }
}

#[test]
fn a_cursor_inside_a_character_moves_to_its_start() {
    assert_eq!(clamp_cursor_to_boundary("aé", 2), 1);
    assert_eq!(clamp_cursor_to_boundary("aé", 3), 3);
    assert_eq!(clamp_cursor_to_boundary("aé", 99), 3);
    assert_eq!(clamp_cursor_to_boundary("", 4), 0);
}

#[test]
fn characters_are_stepped_over_whole() {
    let s = "a你😀";
    assert_eq!(next_char_boundary(s, 0), 1);
    assert_eq!(next_char_boundary(s, 1), 4);
    assert_eq!(next_char_boundary(s, 4), 8);
    assert_eq!(next_char_boundary(s, 8), 8);
    assert_eq!(prev_char_boundary(s, 8), 4);
    assert_eq!(prev_char_boundary(s, 4), 1);
    assert_eq!(prev_char_boundary(s, 1), 0);
    assert_eq!(prev_char_boundary(s, 0), 0);
}

#[test]
fn deleting_takes_back_what_was_inserted() {
    let (line, cursor) = insert_char("ab", 1, '你');
    assert_eq!((line.as_str(), cursor), ("a你b", 4));
    let (line, cursor) = delete_before(&line, cursor);
    assert_eq!((line.as_str(), cursor), ("ab", 1));
    let (line, cursor) = delete_after(&line, cursor);
    assert_eq!((line.as_str(), cursor), ("a", 1));
    assert_eq!(delete_after("a", 1), ("a".to_string(), 1));
    assert_eq!(delete_before("a", 0), ("a".to_string(), 0));
}

#[test]
fn moves_stay_on_boundaries_inside_the_input() {
    let s = "a你 b_é--😀";
    for at in 0..=s.len() + 2 {
        for to in [
            prev_char_boundary(s, at),
            next_char_boundary(s, at),
            prev_word_boundary(s, at),
            next_word_boundary(s, at),
        ] {
            assert!(to <= s.len() && s.is_char_boundary(to), "{} -> {}", at, to);
        }
    }
}

#[test]
fn the_words_of_ascii_are_letters_digits_and_underscores() {
    for c in '\u{0}'..'\u{80}' {
        assert_eq!(is_word_char(c), c.is_ascii_alphanumeric() || c == '_', "{:?}", c);
    }
}
