//! What texts, numbers and names amount to.

use crate::error::{message_of, ErrorView};
use crate::session::{hex_digits, is_session_id, session_id_of};
use crate::text::{decimal, is_blank, joined, prefix};
use vstd::prelude::*;

verus! {

/// The start of a text is as long as the text and the limit allow, and agrees with
/// the text character by character.
pub proof fn law_prefix_is_the_start(text: Seq<char>, limit: nat)
    ensures
        prefix(text, limit).len() == if text.len() < limit {
            text.len()
        } else {
            limit
        },
        forall|i: int|
            0 <= i < prefix(text, limit).len() ==> #[trigger] prefix(text, limit)[i] == text[i],
{
}

/// A text is blank exactly where each of its characters is one of the twenty-five
/// that Unicode counts as white space.
pub proof fn law_blank_is_nothing_but_white_space(text: Seq<char>)
    ensures
        is_blank(text) <==> forall|i: int|
            0 <= i < text.len() ==> {
                let code = (#[trigger] text[i]) as int;
                ||| 9 <= code <= 13
                ||| code == 32
                ||| code == 133
                ||| code == 160
                ||| code == 5760
                ||| 8192 <= code <= 8202
                ||| code == 8232
                ||| code == 8233
                ||| code == 8239
                ||| code == 8287
                ||| code == 12288
            },
{
}

/// The number that decimal digits stand for.
pub open spec fn decimal_value(digits: Seq<char>) -> int
    decreases digits.len(),
{
    if digits.len() == 0 {
        0
    } else {
        10 * decimal_value(digits.drop_last()) + (digits.last() as int - 48)
    }
}

/// A number in decimal notation reads back as the number; it has no digits but
/// decimal ones, and no zero in front.
pub proof fn law_decimal_reads_back(n: nat)
    ensures
        decimal_value(decimal(n)) == n,
        decimal(n).len() > 0,
        forall|i: int|
            0 <= i < decimal(n).len() ==> 48 <= (#[trigger] decimal(n)[i]) as int && decimal(
                n,
            )[i] as int <= 57,
        n > 0 ==> decimal(n)[0] as int > 48,
    decreases n,
{
    let digits = decimal(n);
    if n >= 10 {
        law_decimal_reads_back(n / 10);
        assert(digits.drop_last() =~= decimal(n / 10));
    } else {
        assert(digits.drop_last() =~= Seq::empty());
        assert(decimal_value(digits.drop_last()) == 0);
    }
}

/// Joining two lists puts one separator between what each of them joins to; a
/// single text joins to itself, and none to nothing.
pub proof fn law_joining_separates_neighbours(
    first: Seq<Seq<char>>,
    second: Seq<Seq<char>>,
    separator: Seq<char>,
    text: Seq<char>,
)
    requires
        first.len() > 0,
        second.len() > 0,
    ensures
        joined(first + second, separator) == joined(first, separator) + separator + joined(
            second,
            separator,
        ),
        joined(seq![text], separator) == text,
        joined(Seq::empty(), separator) == Seq::<char>::empty(),
    decreases second.len(),
{
    let all = first + second;
    assert(all.drop_last() =~= first + second.drop_last());
    if second.len() == 1 {
        assert(all.drop_last() =~= first);
    } else {
        law_joining_separates_neighbours(first, second.drop_last(), separator, text);
        assert(joined(all, separator) =~= joined(first, separator) + separator + joined(
            second,
            separator,
        ));
    }
}

/// A number without its `count` lowest hexadecimal digits.
pub open spec fn shifted(number: nat, count: nat) -> nat
    decreases count,
{
    if count == 0 {
        number
    } else {
        shifted(number / 16, (count - 1) as nat)
    }
}

/// The digits of a number stand at their places, the highest first.
pub proof fn law_hex_digits_stand_at_their_places(number: nat, count: nat, place: nat)
    requires
        place < count,
    ensures
        hex_digits(number, count).len() == count,
        hex_digits(number, count)[place as int] == "0123456789abcdef"@[(shifted(
            number,
            (count - 1 - place) as nat,
        ) % 16) as int],
    decreases count,
{
    reveal_strlit("0123456789abcdef");
    let rest = hex_digits(number / 16, (count - 1) as nat);
    if count > 1 {
        law_hex_digits_stand_at_their_places(
            number / 16,
            (count - 1) as nat,
            if place < count - 1 {
                place
            } else {
                0
            },
        );
    }
    assert(hex_digits(number, count) == rest.push(hex_digits(number, count).last()));
}

/// The name of a session is the first twelve of the thirty-two digits of its
/// identifier.
pub proof fn law_session_names_start_identifiers(bits: nat, place: nat)
    requires
        place < 12,
    ensures
        session_id_of(bits).len() == 12,
        session_id_of(bits)[place as int] == "0123456789abcdef"@[(shifted(
            bits,
            (31 - place) as nat,
        ) % 16) as int],
{
    law_hex_digits_stand_at_their_places(bits, 32, place);
}

/// A failure is told by its kind and its detail.
pub proof fn law_messages_name_kind_and_detail(detail: Seq<char>)
    ensures
        message_of(ErrorView::MissingConfig(detail)) == "missing config: "@ + detail,
        message_of(ErrorView::InvalidParams(detail)) == "invalid params: "@ + detail,
        message_of(ErrorView::NotFound(detail)) == "not found: "@ + detail,
        message_of(ErrorView::Provider(detail)) == "provider error: "@ + detail,
        message_of(ErrorView::Timeout(detail)) == "timeout: "@ + detail,
        message_of(ErrorView::Parse(detail)) == "parse error: "@ + detail,
        message_of(ErrorView::OAuth(detail)) == "oauth error: "@ + detail,
{
}

/// The name of a session is twelve lower-case hexadecimal digits, and nothing else
/// is.
pub proof fn law_session_names_are_twelve_digits(text: Seq<char>)
    ensures
        is_session_id(text) <==> text.len() == 12 && forall|i: int|
            0 <= i < text.len() ==> {
                let code = (#[trigger] text[i]) as int;
                48 <= code <= 57 || 97 <= code <= 102
            },
{
}

} // verus!
