//! Identities of accounts and profiles, and their text form.

use uuid::Uuid;
use vstd::prelude::*;

verus! {

/// Identity of an account in the durable store.
#[derive(Clone, Copy, Debug, PartialEq, Eq, Structural)]
pub struct AccountId {
    pub value: u128,
}

/// Identity of a profile in the durable store.
#[derive(Clone, Copy, Debug, PartialEq, Eq, Structural)]
pub struct ProfileId {
    pub value: u128,
}

/// The lower-case hexadecimal digit for `d`, where `0 <= d < 16`.
pub open spec fn hex_digit(d: int) -> char {
    if d < 10 {
        (48 + d) as char
    } else {
        (87 + d) as char
    }
}

/// The value of a hexadecimal digit of either case.
pub open spec fn hex_value(c: char) -> Option<int> {
    if '0' <= c && c <= '9' {
        Some(c as int - 48)
    } else if 'a' <= c && c <= 'f' {
        Some(c as int - 87)
    } else if 'A' <= c && c <= 'F' {
        Some(c as int - 55)
    } else {
        None
    }
}

/// Whether every character of `s` is a hexadecimal digit.
pub open spec fn is_hex_text(s: Seq<char>) -> bool {
    forall|i: int| 0 <= i < s.len() ==> (#[trigger] hex_value(s[i])) is Some
}

/// The last `digits` hexadecimal digits of `v`, most significant first.
pub open spec fn hex_text(v: nat, digits: nat) -> Seq<char>
    decreases digits,
{
    if digits == 0 {
        Seq::empty()
    } else {
        hex_text(v / 16, (digits - 1) as nat).push(hex_digit((v % 16) as int))
    }
}

/// The number that the hexadecimal digits of `s` spell.
pub open spec fn hex_number(s: Seq<char>) -> nat
    decreases s.len(),
{
    if s.len() == 0 {
        0
    } else {
        match hex_value(s.last()) {
            Some(d) => (hex_number(s.drop_last()) * 16 + d) as nat,
            None => 0,
        }
    }
}

/// 16 to the power `d`.
pub open spec fn pow16(d: nat) -> nat
    decreases d,
{
    if d == 0 {
        1
    } else {
        16 * pow16((d - 1) as nat)
    }
}

/// The text under which an identity is kept in a session record: 32
/// lower-case hexadecimal digits.
pub open spec fn id_text(value: u128) -> Seq<char> {
    hex_text(value as nat, 32)
}

/// What `Uuid::try_parse` makes of a text that is not 32 hexadecimal digits
/// (the hyphenated, braced and URN forms).
pub uninterp spec fn uuid_text_value(s: Seq<char>) -> Option<u128>;

/// The identity that a text stands for, if any.
pub open spec fn parsed_id(s: Seq<char>) -> Option<u128> {
    if s.len() == 32 && is_hex_text(s) {
        Some(hex_number(s) as u128)
    } else {
        uuid_text_value(s)
    }
}

/// Writing a number with enough digits and reading it back gives the number.
pub proof fn lemma_hex_round_trip(v: nat, digits: nat)
    requires
        v < pow16(digits),
    ensures
        hex_text(v, digits).len() == digits,
        is_hex_text(hex_text(v, digits)),
        hex_number(hex_text(v, digits)) == v,
    decreases digits,
{
    if digits > 0 {
        let rest = hex_text(v / 16, (digits - 1) as nat);
        let d = (v % 16) as int;
        lemma_hex_round_trip(v / 16, (digits - 1) as nat);
        let s = hex_text(v, digits);
        assert(s == rest.push(hex_digit(d)));
        assert(s.drop_last() =~= rest);
        assert(s.last() == hex_digit(d));
        assert(hex_value(hex_digit(d)) == Some(d));
        assert forall|i: int| 0 <= i < s.len() implies (#[trigger] hex_value(s[i])) is Some by {
            if i < rest.len() {
                assert(s[i] == rest[i]);
            }
        }
    }
}

/// An identity survives being written as text and parsed again.
pub proof fn lemma_id_text_parses_back(value: u128)
    ensures
        id_text(value).len() == 32,
        parsed_id(id_text(value)) == Some(value),
{
    lemma_pow16_32();
    lemma_hex_round_trip(value as nat, 32);
}

/// 16 to the power 32 is 2 to the power 128.
proof fn lemma_pow16_32()
    ensures
        pow16(32) == 0x1_0000_0000_0000_0000_0000_0000_0000_0000,
{
    reveal_with_fuel(pow16, 9);
    assert(pow16(8) == 0x1_0000_0000);
    assert(pow16(16) == 0x1_0000_0000_0000_0000);
    assert(pow16(24) == 0x1_0000_0000_0000_0000_0000_0000);
}

/// Formats an identity with `Uuid::simple`, which writes the 16 bytes of the
/// value, most significant first, as 32 lower-case hexadecimal digits.
#[verifier::external_body]
pub(crate) fn id_to_text(value: u128) -> (text: String)
    ensures
        text@ == id_text(value),
{
    Uuid::from_u128(value).simple().to_string()
}

/// Parses an identity with `Uuid::try_parse`. A text of 32 hexadecimal
/// digits, of either case, is read as the number they spell. Of every other
/// text the contract only says that the same text gives the same answer.
#[verifier::external_body]
pub(crate) fn id_from_text(text: &str) -> (value: Option<u128>)
    ensures
        value == parsed_id(text@),
        !(text@.len() == 32 && is_hex_text(text@)) ==> value == uuid_text_value(text@),
{
    match Uuid::try_parse(text) {
        Ok(id) => Some(id.as_u128()),
        Err(_) => None,
    }
}

} // verus!
