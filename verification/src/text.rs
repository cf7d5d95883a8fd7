//! Text helpers: comparison, blankness, prefixes, decimal numbers and lists.

use vstd::prelude::*;
use vstd::string::{StrSliceExecFns, StringExecFns};

verus! {

/// The text in an optional string.
pub open spec fn text_of(value: Option<String>) -> Option<Seq<char>> {
    match value {
        Some(text) => Some(text@),
        None => None,
    }
}

/// The number of characters in an optional text; none when there is no text.
pub open spec fn opt_len(value: Option<Seq<char>>) -> nat {
    match value {
        Some(text) => text.len(),
        None => 0,
    }
}

/// The texts of a list of strings.
pub open spec fn texts_of(values: Seq<String>) -> Seq<Seq<char>> {
    Seq::new(values.len(), |i: int| values[i]@)
}

/// The characters with the Unicode `White_Space` property.
pub open spec fn is_white_space(c: char) -> bool {
    ||| '\u{9}' <= c <= '\u{d}'
    ||| c == ' '
    ||| c == '\u{85}'
    ||| c == '\u{a0}'
    ||| c == '\u{1680}'
    ||| '\u{2000}' <= c <= '\u{200a}'
    ||| c == '\u{2028}'
    ||| c == '\u{2029}'
    ||| c == '\u{202f}'
    ||| c == '\u{205f}'
    ||| c == '\u{3000}'
}

/// A text is blank when nothing is left of it once white space is trimmed.
pub open spec fn is_blank(text: Seq<char>) -> bool {
    forall|i: int| 0 <= i < text.len() ==> is_white_space(#[trigger] text[i])
}

/// The first `limit` characters of a text, or all of it when it is shorter.
pub open spec fn prefix(text: Seq<char>, limit: nat) -> Seq<char> {
    if text.len() <= limit {
        text
    } else {
        text.take(limit as int)
    }
}

/// The decimal digit with the given value.
pub open spec fn digit(value: int) -> char
    recommends
        0 <= value < 10,
{
    ('0' as int + value) as char
}

/// The decimal notation of a number, without leading zeros.
pub open spec fn decimal(n: nat) -> Seq<char>
    decreases n,
{
    if n < 10 {
        seq![digit(n as int)]
    } else {
        decimal(n / 10).push(digit((n % 10) as int))
    }
}

/// The texts one after the other, with the separator between neighbours.
pub open spec fn joined(texts: Seq<Seq<char>>, separator: Seq<char>) -> Seq<char>
    decreases texts.len(),
{
    if texts.len() == 0 {
        Seq::empty()
    } else if texts.len() == 1 {
        texts[0]
    } else {
        joined(texts.drop_last(), separator) + separator + texts.last()
    }
}

/// Whether two texts are the same, character for character.
pub fn same_text(left: &str, right: &str) -> (same: bool)
    ensures
        same == (left@ == right@),
{
    left.to_owned() == right.to_owned()
}

/// Whether two optional texts are the same.
pub fn same_opt_text(left: &Option<String>, right: &Option<String>) -> (same: bool)
    ensures
        same == (text_of(*left) == text_of(*right)),
{
    match (left, right) {
        (Some(left), Some(right)) => same_text(left.as_str(), right.as_str()),
        (None, None) => true,
        _ => false,
    }
}

/// A copy of an optional string.
pub fn copy_text(value: &Option<String>) -> (copy: Option<String>)
    ensures
        copy == *value,
{
    match value {
        Some(text) => Some(text.clone()),
        None => None,
    }
}

/// The number of characters in an optional text.
pub fn opt_chars(value: &Option<String>) -> (count: usize)
    ensures
        count == opt_len(text_of(*value)),
{
    match value {
        Some(text) => text.as_str().unicode_len(),
        None => 0,
    }
}

/// Whether a character is white space.
fn white_space(c: char) -> (white: bool)
    ensures
        white == is_white_space(c),
{
    ('\u{9}' <= c && c <= '\u{d}') || c == ' ' || c == '\u{85}' || c == '\u{a0}' || c == '\u{1680}'
        || ('\u{2000}' <= c && c <= '\u{200a}') || c == '\u{2028}' || c == '\u{2029}'
        || c == '\u{202f}' || c == '\u{205f}' || c == '\u{3000}'
}

/// Whether nothing but white space is in the text.
pub fn blank(text: &str) -> (result: bool)
    ensures
        result == is_blank(text@),
{
    for c in it: text.chars()
        invariant
            it.seq() == text@,
            forall|i: int| 0 <= i < it.index() ==> is_white_space(#[trigger] text@[i]),
    {
        if !white_space(c) {
            assert(!is_white_space(text@[it.index()]));
            return false;
        }
    }
    true
}

/// The first `limit` characters of the text.
pub fn take_chars(text: &str, limit: usize) -> (start: String)
    ensures
        start@ == prefix(text@, limit as nat),
{
    if text.unicode_len() <= limit {
        text.to_owned()
    } else {
        let start = text.substring_char(0, limit).to_owned();
        assert(start@ =~= text@.take(limit as int));
        start
    }
}

/// The digit for a value below ten.
fn digit_text(value: u64) -> (text: &'static str)
    requires
        value < 10,
    ensures
        text@ == seq![digit(value as int)],
{
    proof {
        reveal_strlit("0");
        reveal_strlit("1");
        reveal_strlit("2");
        reveal_strlit("3");
        reveal_strlit("4");
        reveal_strlit("5");
        reveal_strlit("6");
        reveal_strlit("7");
        reveal_strlit("8");
        reveal_strlit("9");
    }
    let text = match value {
        0 => "0",
        1 => "1",
        2 => "2",
        3 => "3",
        4 => "4",
        5 => "5",
        6 => "6",
        7 => "7",
        8 => "8",
        _ => "9",
    };
    assert(text@ =~= seq![digit(value as int)]);
    text
}

/// The decimal notation of a number.
pub fn decimal_text(n: u64) -> (result: String)
    ensures
        result@ == decimal(n as nat),
    decreases n,
{
    if n < 10 {
        digit_text(n).to_owned()
    } else {
        let mut result = decimal_text(n / 10);
        result.append(digit_text(n % 10));
        assert(result@ =~= decimal(n as nat));
        result
    }
}

/// The strings one after the other, with the separator between neighbours.
pub fn join(texts: &Vec<String>, separator: &str) -> (result: String)
    ensures
        result@ == joined(texts_of(texts@), separator@),
{
    let mut result = String::new();
    for i in 0..texts.len()
        invariant
            result@ == joined(texts_of(texts@).take(i as int), separator@),
    {
        if i > 0 {
            result.append(separator);
        }
        result.append(texts[i].as_str());
        proof {
            let done = texts_of(texts@).take(i as int);
            let next = texts_of(texts@).take(i + 1);
            assert(next.drop_last() =~= done);
            if i == 0 {
                assert(result@ =~= texts[0]@);
            }
        }
    }
    assert(texts_of(texts@).take(texts.len() as int) =~= texts_of(texts@));
    result
}

} // verus!
