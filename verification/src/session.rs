//! Session names: the first digits of a random identifier.

use vstd::prelude::*;
use vstd::string::StrSliceExecFns;

verus! {

/// The number of digits in a session name.
pub const SESSION_ID_DIGITS: usize = 12;

/// The lower-case hexadecimal digit with the given value.
pub open spec fn hex_digit(value: nat) -> char
    recommends
        value < 16,
{
    if value < 10 {
        ('0' as int + value) as char
    } else {
        ('a' as int + value - 10) as char
    }
}

/// Whether a character is a lower-case hexadecimal digit.
pub open spec fn is_hex_digit(c: char) -> bool {
    '0' <= c <= '9' || 'a' <= c <= 'f'
}

/// The `count` lowest hexadecimal digits of a number, the highest of them first.
pub open spec fn hex_digits(number: nat, count: nat) -> Seq<char>
    decreases count,
{
    if count == 0 {
        Seq::empty()
    } else {
        hex_digits(number / 16, (count - 1) as nat).push(hex_digit(number % 16))
    }
}

/// Whether a text can be the name of a session.
pub open spec fn is_session_id(text: Seq<char>) -> bool {
    &&& text.len() == SESSION_ID_DIGITS
    &&& forall|i: int| 0 <= i < text.len() ==> is_hex_digit(#[trigger] text[i])
}

/// The name of the session that a 128-bit identifier stands for.
pub open spec fn session_id_of(bits: nat) -> Seq<char> {
    hex_digits(bits, 32).take(SESSION_ID_DIGITS as int)
}

/// Draws a random identifier with `uuid::Uuid::new_v4` and returns its 128 bits
/// as one number, the first byte highest (`uuid::Uuid::as_u128`).
///
/// Of the bits, those that mark the version (4, in the thirteenth hexadecimal
/// digit) and the variant (binary 10, at the top of the seventeenth) are fixed;
/// nothing is claimed of the others, which come from the system's random source.
/// The call panics where the system has no random numbers to give.
#[verifier::external_body]
fn random_uuid() -> (bits: u128)
    ensures
        (bits / 0x1000_0000_0000_0000_0000u128) % 16 == 4,
        (bits / 0x4000_0000_0000_0000u128) % 4 == 2,
{
    uuid::Uuid::new_v4().as_u128()
}

/// Writes the identifier with the given bits (`uuid::Uuid::from_u128`) with
/// `uuid::fmt::Simple::encode_lower`: its 32 hexadecimal digits in lower case, the
/// highest first, without hyphens.
#[verifier::external_body]
fn encode_simple(bits: u128) -> (text: String)
    ensures
        text@ == hex_digits(bits as nat, 32),
{
    let mut buffer = [0u8; uuid::fmt::Simple::LENGTH];
    uuid::Uuid::from_u128(bits).simple().encode_lower(&mut buffer).to_string()
}

/// The digits of a number are as many as asked for, and all are hexadecimal.
pub proof fn lemma_hex_digits(number: nat, count: nat)
    ensures
        hex_digits(number, count).len() == count,
        forall|i: int| 0 <= i < count ==> is_hex_digit(#[trigger] hex_digits(number, count)[i]),
    decreases count,
{
    if count > 0 {
        lemma_hex_digits(number / 16, (count - 1) as nat);
    }
}

/// The name of the session that a 128-bit identifier stands for: its first
/// twelve hexadecimal digits.
pub fn session_id(bits: u128) -> (id: String)
    ensures
        id@ == session_id_of(bits as nat),
        is_session_id(id@),
{
    proof {
        lemma_hex_digits(bits as nat, 32);
    }
    let encoded = encode_simple(bits);
    let id = encoded.as_str().substring_char(0, SESSION_ID_DIGITS).to_owned();
    assert(id@ =~= session_id_of(bits as nat));
    id
}

/// Whether a text is the name of the session that some random identifier stands
/// for.
pub closed spec fn is_drawn_session_id(text: Seq<char>) -> bool {
    exists|bits: u128|
        #[trigger] call_ensures(random_uuid, (), bits) && text == session_id_of(bits as nat)
}

/// A new session name: that of an identifier drawn at random.
pub fn fresh_session_id() -> (id: String)
    ensures
        is_session_id(id@),
        is_drawn_session_id(id@),
{
    let bits = random_uuid();
    assert(call_ensures(random_uuid, (), bits));
    session_id(bits)
}

} // verus!
