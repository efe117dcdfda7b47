//! String and character literals.

use vstd::prelude::*;

verus! {

/// `text` without a first and a last character that are both `quote`.
pub open spec fn unquoted(text: Seq<char>, quote: char) -> Seq<char> {
    if text.len() >= 2 && text[0] == quote && text.last() == quote {
        text.subrange(1, text.len() - 1)
    } else {
        text
    }
}

/// The characters that a backslash before `escaped` stands for in a string.
pub open spec fn string_escape(escaped: char) -> Seq<char> {
    match escaped {
        'n' => seq!['\n'],
        'r' => seq!['\r'],
        't' => seq!['\t'],
        '\\' => seq!['\\'],
        '"' => seq!['"'],
        '0' => seq!['\0'],
        _ => seq!['\\', escaped],
    }
}

/// The text that the inside of a string literal stands for.
pub open spec fn unescaped_content(content: Seq<char>) -> Seq<char>
    decreases content.len(),
{
    if content.len() == 0 {
        Seq::empty()
    } else if content[0] != '\\' {
        seq![content[0]] + unescaped_content(content.skip(1))
    } else if content.len() == 1 {
        seq!['\\']
    } else {
        string_escape(content[1]) + unescaped_content(content.skip(2))
    }
}

/// The text that a string literal stands for.
pub open spec fn unescaped(literal: Seq<char>) -> Seq<char> {
    unescaped_content(unquoted(literal, '"'))
}

#[derive(Clone, Copy, Debug, PartialEq, Eq, Structural)]
pub enum CharLiteralError {
    /// Nothing stands between the quotes, or a lone backslash.
    Empty,
    /// More than one character, or an escape that is not complete.
    TooLong,
}

/// The value of a hexadecimal digit.
pub open spec fn hex_value(digit: char) -> Option<u32> {
    if '0' <= digit <= '9' {
        Some((digit as u32 - '0' as u32) as u32)
    } else if 'a' <= digit <= 'f' {
        Some((digit as u32 - 'a' as u32 + 10) as u32)
    } else if 'A' <= digit <= 'F' {
        Some((digit as u32 - 'A' as u32 + 10) as u32)
    } else {
        None
    }
}

/// The character that a backslash before `escaped` stands for in a character
/// literal.
pub open spec fn char_escape(escaped: char) -> char {
    match escaped {
        'n' => '\n',
        'r' => '\r',
        't' => '\t',
        '0' => '\0',
        _ => escaped,
    }
}

/// The character that the inside of a character literal stands for.
pub open spec fn char_content_value(content: Seq<char>) -> Result<char, CharLiteralError> {
    if content.len() == 0 {
        Err(CharLiteralError::Empty)
    } else if content[0] != '\\' {
        if content.len() == 1 {
            Ok(content[0])
        } else {
            Err(CharLiteralError::TooLong)
        }
    } else if content.len() == 1 {
        Err(CharLiteralError::Empty)
    } else if content[1] != 'x' {
        if content.len() == 2 {
            Ok(char_escape(content[1]))
        } else {
            Err(CharLiteralError::TooLong)
        }
    } else if content.len() == 4 && hex_value(content[2]) is Some && hex_value(content[3]) is Some {
        Ok((hex_value(content[2])->0 * 16 + hex_value(content[3])->0) as char)
    } else {
        Err(CharLiteralError::TooLong)
    }
}

/// The character that a character literal stands for.
pub open spec fn char_literal_value(literal: Seq<char>) -> Result<char, CharLiteralError> {
    char_content_value(unquoted(literal, '\''))
}

/// `String::push` appends one character.
pub assume_specification[ std::string::String::push ](buffer: &mut std::string::String, c: char)
    ensures
        final(buffer)@ == old(buffer)@.push(c),
;

/// The characters of `text`.
pub fn chars_of(text: &str) -> (result: Vec<char>)
    ensures
        result@ == text@,
{
    let mut chars: Vec<char> = Vec::new();
    for c in source: text.chars()
        invariant
            chars@ == source.seq().take(source.index() as int),
    {
        chars.push(c);
        assert(chars@ =~= source.seq().take(source.index() as int + 1));
    }
    assert(chars@ =~= text@);
    chars
}

/// The characters of `text`, without enclosing quotes.
fn content_chars(text: &str, quote: char) -> (result: Vec<char>)
    ensures
        result@ == unquoted(text@, quote),
{
    let chars = chars_of(text);
    if chars.len() >= 2 && chars[0] == quote && chars[chars.len() - 1] == quote {
        let mut inner: Vec<char> = Vec::new();
        let mut i: usize = 1;
        while i < chars.len() - 1
            invariant
                1 <= i <= chars.len() - 1,
                inner@ == chars@.subrange(1, i as int),
            decreases chars.len() - i,
        {
            inner.push(chars[i]);
            i = i + 1;
            assert(inner@ =~= chars@.subrange(1, i as int));
        }
        inner
    } else {
        chars
    }
}

/// The text that a string literal stands for: enclosing quotes are dropped
/// and escapes replaced. An unknown escape keeps its backslash.
pub fn unescape_string(s: &str) -> (result: String)
    ensures
        result@ == unescaped(s@),
{
    let content = content_chars(s, '"');
    let mut result = String::new();
    let mut i: usize = 0;
    assert(content@.skip(0) =~= content@);
    assert(result@ + unescaped_content(content@) =~= unescaped(s@));
    while i < content.len()
        invariant
            i <= content.len(),
            content@ == unquoted(s@, '"'),
            result@ + unescaped_content(content@.skip(i as int)) == unescaped(s@),
        decreases content.len() - i,
    {
        let ghost before = result@;
        let ghost rest = content@.skip(i as int);
        let c: char = content[i];
        if c != '\\' {
            result.push(c);
            i = i + 1;
            assert(rest.skip(1) =~= content@.skip(i as int));
            assert(before + (seq![c] + unescaped_content(content@.skip(i as int))) =~= result@
                + unescaped_content(content@.skip(i as int)));
        } else if i + 1 == content.len() {
            result.push('\\');
            i = i + 1;
            assert(content@.skip(i as int) =~= Seq::<char>::empty());
            assert(before + seq!['\\'] =~= result@ + unescaped_content(content@.skip(i as int)));
        } else {
            let escaped: char = content[i + 1];
            match escaped {
                'n' => result.push('\n'),
                'r' => result.push('\r'),
                't' => result.push('\t'),
                '\\' => result.push('\\'),
                '"' => result.push('"'),
                '0' => result.push('\0'),
                _ => {
                    result.push('\\');
                    result.push(escaped);
                },
            }
            i = i + 2;
            assert(rest.skip(2) =~= content@.skip(i as int));
            assert(result@ =~= before + string_escape(escaped));
            assert(before + (string_escape(escaped) + unescaped_content(content@.skip(i as int)))
                =~= result@ + unescaped_content(content@.skip(i as int)));
        }
    }
    assert(content@.skip(i as int) =~= Seq::<char>::empty());
    assert(result@ =~= result@ + unescaped_content(content@.skip(i as int)));
    result
}

fn hex_digit(digit: char) -> (result: Option<u32>)
    ensures
        result == hex_value(digit),
        result is Some ==> result->0 < 16,
{
    if '0' <= digit && digit <= '9' {
        Some(digit as u32 - '0' as u32)
    } else if 'a' <= digit && digit <= 'f' {
        Some(digit as u32 - 'a' as u32 + 10)
    } else if 'A' <= digit && digit <= 'F' {
        Some(digit as u32 - 'A' as u32 + 10)
    } else {
        None
    }
}

/// The character that a character literal stands for.
pub fn parse_char_literal(s: &str) -> (result: Result<char, CharLiteralError>)
    ensures
        result == char_literal_value(s@),
{
    let content = content_chars(s, '\'');
    if content.len() == 0 {
        return Err(CharLiteralError::Empty);
    }
    if content[0] != '\\' {
        return if content.len() == 1 {
            Ok(content[0])
        } else {
            Err(CharLiteralError::TooLong)
        };
    }
    if content.len() == 1 {
        return Err(CharLiteralError::Empty);
    }
    if content[1] != 'x' {
        if content.len() != 2 {
            return Err(CharLiteralError::TooLong);
        }
        return Ok(
            match content[1] {
                'n' => '\n',
                'r' => '\r',
                't' => '\t',
                '0' => '\0',
                c => c,
            },
        );
    }
    if content.len() != 4 {
        return Err(CharLiteralError::TooLong);
    }
    match (hex_digit(content[2]), hex_digit(content[3])) {
        (Some(high), Some(low)) => Ok((high * 16 + low) as u8 as char),
        _ => Err(CharLiteralError::TooLong),
    }
}

/// A text without a backslash and without enclosing quotes stands for itself.
pub proof fn law_plain_text_is_kept(text: Seq<char>)
    requires
        !text.contains('\\'),
        unquoted(text, '"') == text,
    ensures
        unescaped(text) == text,
{
    lemma_plain_content(text);
}

proof fn lemma_plain_content(content: Seq<char>)
    requires
        !content.contains('\\'),
    ensures
        unescaped_content(content) == content,
    decreases content.len(),
{
    if content.len() > 0 {
        assert(content.contains(content[0]));
        assert forall|c: char| content.skip(1).contains(c) implies content.contains(c) by {
            let i = choose|i: int| 0 <= i < content.skip(1).len() && content.skip(1)[i] == c;
            assert(content[i + 1] == c);
        }
        lemma_plain_content(content.skip(1));
        assert(seq![content[0]] + content.skip(1) =~= content);
    }
}

/// A literal stands for the concatenation of what its parts stand for, as
/// long as the cut does not fall behind a backslash of the first part.
pub proof fn law_unescape_concatenates(left: Seq<char>, right: Seq<char>)
    requires
        !left.contains('\\'),
    ensures
        unescaped_content(left + right) == left + unescaped_content(right),
    decreases left.len(),
{
    if left.len() == 0 {
        assert(left + right =~= right);
        assert(left + unescaped_content(right) =~= unescaped_content(right));
    } else {
        assert(left.contains(left[0]));
        assert((left + right).skip(1) =~= left.skip(1) + right);
        assert forall|c: char| left.skip(1).contains(c) implies left.contains(c) by {
            let i = choose|i: int| 0 <= i < left.skip(1).len() && left.skip(1)[i] == c;
            assert(left[i + 1] == c);
        }
        law_unescape_concatenates(left.skip(1), right);
        assert(seq![left[0]] + (left.skip(1) + unescaped_content(right)) =~= left
            + unescaped_content(right));
    }
}

/// A character as it is written inside of a string literal.
pub open spec fn escaped_char(c: char) -> Seq<char> {
    match c {
        '\n' => seq!['\\', 'n'],
        '\r' => seq!['\\', 'r'],
        '\t' => seq!['\\', 't'],
        '\\' => seq!['\\', '\\'],
        '"' => seq!['\\', '"'],
        '\0' => seq!['\\', '0'],
        _ => seq![c],
    }
}

/// A text as it is written inside of a string literal.
pub open spec fn escaped_text(text: Seq<char>) -> Seq<char>
    decreases text.len(),
{
    if text.len() == 0 {
        Seq::empty()
    } else {
        escaped_char(text[0]) + escaped_text(text.skip(1))
    }
}

/// A text between two quotes.
pub open spec fn between_quotes(text: Seq<char>, quote: char) -> Seq<char> {
    seq![quote] + text + seq![quote]
}

proof fn lemma_escaped_text(text: Seq<char>)
    ensures
        unescaped_content(escaped_text(text)) == text,
    decreases text.len(),
{
    if text.len() > 0 {
        let rest = escaped_text(text.skip(1));
        let all = escaped_text(text);
        lemma_escaped_text(text.skip(1));
        assert(all.skip(escaped_char(text[0]).len() as int) =~= rest);
        assert(seq![text[0]] + text.skip(1) =~= text);
    }
}

/// Every text has a string literal that stands for it: the text with its
/// line breaks, tabs, zeros, quotes and backslashes escaped, between quotes.
pub proof fn law_escaped_text_reads_back(text: Seq<char>)
    ensures
        unescaped(between_quotes(escaped_text(text), '"')) == text,
{
    let literal = between_quotes(escaped_text(text), '"');
    assert(unquoted(literal, '"') =~= escaped_text(text));
    lemma_escaped_text(text);
}

/// A character as it is written inside of a character literal.
pub open spec fn escaped_char_literal(c: char) -> Seq<char> {
    match c {
        '\n' => seq!['\\', 'n'],
        '\r' => seq!['\\', 'r'],
        '\t' => seq!['\\', 't'],
        '\0' => seq!['\\', '0'],
        '\\' => seq!['\\', '\\'],
        '\'' => seq!['\\', '\''],
        _ => seq![c],
    }
}

/// Every character has a character literal that stands for it.
pub proof fn law_escaped_char_reads_back(c: char)
    ensures
        char_literal_value(between_quotes(escaped_char_literal(c), '\'')) == Ok::<
            char,
            CharLiteralError,
        >(c),
{
    assert(unquoted(between_quotes(escaped_char_literal(c), '\''), '\'') =~= escaped_char_literal(
        c,
    ));
}

} // verus!
