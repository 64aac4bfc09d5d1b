//! JSON as text, as far as the request payload goes: what stands between the
//! quotes of a string literal, and the object with one member that is a
//! string.

use vstd::prelude::*;

verus! {

/// A control character, which a string literal cannot hold as it is.
pub open spec fn is_control(c: char) -> bool {
    (c as u32) < 0x20
}

/// The character that a backslash followed by `c` stands for in a string
/// literal, for the escapes of two characters.
pub open spec fn escape_meaning(c: char) -> Option<char> {
    if c == '"' || c == '\\' || c == '/' {
        Some(c)
    } else if c == 'b' {
        Some('\u{8}')
    } else if c == 'f' {
        Some('\u{c}')
    } else if c == 'n' {
        Some('\n')
    } else if c == 'r' {
        Some('\r')
    } else if c == 't' {
        Some('\t')
    } else {
        None
    }
}

/// The text that `chars` stand for between the quotes of a string literal,
/// or `None` where they cannot stand there: where a double quote or a
/// control character is among them as it is, or a backslash is not followed
/// by one of the characters it can be followed by.
///
/// Escapes by code point (`\u` and four digits) are not read here; nothing
/// in this library writes one.
pub open spec fn string_value(chars: Seq<char>) -> Option<Seq<char>>
    decreases chars.len(),
{
    if chars.len() == 0 {
        Some(Seq::empty())
    } else if chars[0] == '\\' {
        if chars.len() >= 2 && escape_meaning(chars[1]) is Some {
            match string_value(chars.skip(2)) {
                Some(rest) => Some(seq![escape_meaning(chars[1])->0] + rest),
                None => None,
            }
        } else {
            None
        }
    } else if chars[0] == '"' || is_control(chars[0]) {
        None
    } else {
        match string_value(chars.skip(1)) {
            Some(rest) => Some(seq![chars[0]] + rest),
            None => None,
        }
    }
}

/// Whether `json` is the text of an object whose single member has the name
/// `name` and, as its value, the string `value`: an opening brace, the
/// name's literal, a colon and a space, the value's literal, a closing
/// brace.
pub open spec fn is_single_string_object(json: Seq<char>, name: Seq<char>, value: Seq<char>) -> bool {
    exists|name_chars: Seq<char>, value_chars: Seq<char>|
        #![trigger string_value(name_chars), string_value(value_chars)]
        {
            &&& json == seq!['{', '"'] + name_chars + seq!['"', ':', ' ', '"'] + value_chars + seq![
                '"',
                '}',
            ]
            &&& string_value(name_chars) == Some(name)
            &&& string_value(value_chars) == Some(value)
        }
}

/// Whether every character of `text` stands for itself in a string literal:
/// no control character, no double quote, no backslash.
pub open spec fn is_plain(text: Seq<char>) -> bool {
    forall|i: int|
        0 <= i < text.len() ==> !is_control(#[trigger] text[i]) && text[i] != '"' && text[i] != '\\'
}

/// What two runs of characters stand for, one after the other, is what the
/// first stands for followed by what the second stands for.
pub proof fn lemma_string_value_concat(
    first: Seq<char>,
    first_value: Seq<char>,
    second: Seq<char>,
    second_value: Seq<char>,
)
    requires
        string_value(first) == Some(first_value),
        string_value(second) == Some(second_value),
    ensures
        string_value(first + second) == Some(first_value + second_value),
    decreases first.len(),
{
    let whole = first + second;
    if first.len() == 0 {
        assert(whole =~= second);
        assert(first_value + second_value =~= second_value);
    } else if first[0] == '\\' {
        let rest = string_value(first.skip(2))->0;
        assert(whole.skip(2) =~= first.skip(2) + second);
        lemma_string_value_concat(first.skip(2), rest, second, second_value);
        assert(seq![escape_meaning(first[1])->0] + (rest + second_value) =~= first_value
            + second_value);
    } else {
        let rest = string_value(first.skip(1))->0;
        assert(whole.skip(1) =~= first.skip(1) + second);
        lemma_string_value_concat(first.skip(1), rest, second, second_value);
        assert(seq![first[0]] + (rest + second_value) =~= first_value + second_value);
    }
}

/// A plain text stands for itself.
pub proof fn lemma_string_value_plain(text: Seq<char>)
    requires
        is_plain(text),
    ensures
        string_value(text) == Some(text),
    decreases text.len(),
{
    if text.len() > 0 {
        let rest = text.skip(1);
        assert forall|i: int| 0 <= i < rest.len() implies !is_control(#[trigger] rest[i]) && rest[i]
            != '"' && rest[i] != '\\' by {
            assert(rest[i] == text[i + 1]);
        }
        lemma_string_value_plain(rest);
        assert(!is_control(text[0]) && text[0] != '"' && text[0] != '\\');
        assert(seq![text[0]] + rest =~= text);
    }
}

/// A backslash and a double quote stand for a double quote.
pub proof fn lemma_string_value_escaped_quote()
    ensures
        string_value(seq!['\\', '"']) == Some(seq!['"']),
{
    let chars = seq!['\\', '"'];
    assert(chars.skip(2) =~= Seq::<char>::empty());
    assert(string_value(chars.skip(2)) == Some(Seq::<char>::empty()));
    assert(seq!['"'] + Seq::<char>::empty() =~= seq!['"']);
}

} // verus!
