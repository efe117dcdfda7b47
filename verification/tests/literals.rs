//! String and character literals.

use wx_tir::literal::{parse_char_literal, unescape_string, CharLiteralError};

#[test]
fn plain_string_loses_its_quotes() {
    assert_eq!(unescape_string("\"hello\""), "hello");
}

#[test]
fn string_without_quotes_is_taken_whole() {
    assert_eq!(unescape_string("hello"), "hello");
}

#[test]
fn known_escapes_become_characters() {
    assert_eq!(unescape_string(r#""a\n\r\t\\\"z""#), "a\n\r\t\\\"z");
}

#[test]
fn unknown_escape_keeps_its_backslash() {
    assert_eq!(unescape_string(r#""\q""#), "\\q");
}

#[test]
fn backslash_at_the_end_is_kept() {
    assert_eq!(unescape_string(r#""a\"#), "\"a\\");
}

#[test]
fn characters_beyond_ascii_are_kept() {
    assert_eq!(unescape_string("\"h\u{e9}\u{1f600}\""), "h\u{e9}\u{1f600}");
}

#[test]
fn unescaping_text_without_backslashes_changes_nothing() {
    assert_eq!(unescape_string("no escapes here"), "no escapes here");
}

#[test]
fn unescaping_goes_piece_by_piece() {
    let whole = unescape_string("a\\nb\\tc");
    let pieces = unescape_string("a\\nb") + &unescape_string("\\tc");
    assert_eq!(whole, pieces);
}

#[test]
fn plain_character() {
    assert_eq!(parse_char_literal("'x'"), Ok('x'));
}

#[test]
fn character_escapes() {
    assert_eq!(parse_char_literal(r"'\n'"), Ok('\n'));
    assert_eq!(parse_char_literal(r"'\r'"), Ok('\r'));
    assert_eq!(parse_char_literal(r"'\t'"), Ok('\t'));
    assert_eq!(parse_char_literal(r"'\0'"), Ok('\0'));
    assert_eq!(parse_char_literal(r"'\''"), Ok('\''));
    assert_eq!(parse_char_literal(r"'\\'"), Ok('\\'));
}

#[test]
fn empty_character_literal_is_an_error() {
    assert_eq!(parse_char_literal("''"), Err(CharLiteralError::Empty));
    assert_eq!(parse_char_literal(r"'\'"), Err(CharLiteralError::Empty));
}

#[test]
fn long_character_literal_is_an_error() {
    assert_eq!(parse_char_literal("'ab'"), Err(CharLiteralError::TooLong));
    assert_eq!(parse_char_literal(r"'\nx'"), Err(CharLiteralError::TooLong));
}

#[test]
fn hex_escapes_in_characters() {
    assert_eq!(parse_char_literal(r"'\x41'"), Ok('A'));
    assert_eq!(parse_char_literal(r"'\xfF'"), Ok('\u{ff}'));
    assert_eq!(parse_char_literal(r"'\x4'"), Err(CharLiteralError::TooLong));
    assert_eq!(parse_char_literal(r"'\xg0'"), Err(CharLiteralError::TooLong));
}

#[test]
fn unknown_character_escape_stands_for_the_character() {
    assert_eq!(parse_char_literal(r"'\q'"), Ok('q'));
}

#[test]
fn nul_escape_in_strings() {
    assert_eq!(unescape_string(r#""a\0b""#), "a\0b");
}

#[test]
fn escaped_text_reads_back_as_it_was() {
    let text = "a\n\r\t\\\"\0b'";
    let literal = r#""a\n\r\t\\\"\0b'""#;
    assert_eq!(unescape_string(literal), text);
}

#[test]
fn escaped_characters_read_back_as_they_were() {
    assert_eq!(parse_char_literal(r"'\n'"), Ok('\n'));
    assert_eq!(parse_char_literal(r"'\r'"), Ok('\r'));
    assert_eq!(parse_char_literal(r"'\t'"), Ok('\t'));
    assert_eq!(parse_char_literal(r"'\0'"), Ok('\0'));
    assert_eq!(parse_char_literal(r"'\\'"), Ok('\\'));
    assert_eq!(parse_char_literal(r"'\''"), Ok('\''));
    assert_eq!(parse_char_literal("'q'"), Ok('q'));
}
