//! Unpadded URL-safe base64, the text form that JWK prescribes for binary numbers.
//!
//! Three bytes become four digits of six bits each, most significant bits first. A last
//! group of one or two bytes becomes two or three digits, its unused low bits zero, and
//! no `=` is appended. The digits are `A`-`Z`, `a`-`z`, `0`-`9`, `-` and `_`.

use vstd::prelude::*;
use vstd::string::StringExecFns;
use vstd::string::StrSliceExecFns;

verus! {

/// The 64 digits, each at the index that is its value.
pub open spec fn alphabet() -> Seq<char> {
    "ABCDEFGHIJKLMNOPQRSTUVWXYZabcdefghijklmnopqrstuvwxyz0123456789-_"@
}

/// The digit that stands for `value`, for a value below 64.
pub open spec fn digit(value: int) -> char {
    alphabet()[value]
}

/// The value that a digit stands for.
pub open spec fn digit_value(c: char) -> int {
    if 'A' <= c <= 'Z' {
        c as int - 'A' as int
    } else if 'a' <= c <= 'z' {
        c as int - 'a' as int + 26
    } else if '0' <= c <= '9' {
        c as int - '0' as int + 52
    } else if c == '-' {
        62
    } else {
        63
    }
}

/// `c` is one of the 64 digits.
pub open spec fn is_digit(c: char) -> bool {
    'A' <= c <= 'Z' || 'a' <= c <= 'z' || '0' <= c <= '9' || c == '-' || c == '_'
}

/// The digits of a group of at most three bytes.
pub open spec fn encode_group(group: Seq<u8>) -> Seq<char> {
    let b0 = group[0] as int;
    let b1 = group[1] as int;
    let b2 = group[2] as int;
    if group.len() == 0 {
        Seq::empty()
    } else if group.len() == 1 {
        seq![digit(b0 / 4), digit(b0 % 4 * 16)]
    } else if group.len() == 2 {
        seq![digit(b0 / 4), digit(b0 % 4 * 16 + b1 / 16), digit(b1 % 16 * 4)]
    } else {
        seq![
            digit(b0 / 4),
            digit(b0 % 4 * 16 + b1 / 16),
            digit(b1 % 16 * 4 + b2 / 64),
            digit(b2 % 64),
        ]
    }
}

/// The unpadded URL-safe base64 text of `bytes`.
pub open spec fn base64url(bytes: Seq<u8>) -> Seq<char>
    decreases bytes.len(),
{
    if bytes.len() <= 3 {
        encode_group(bytes)
    } else {
        encode_group(bytes.take(3)) + base64url(bytes.skip(3))
    }
}

/// The bytes that a group of at most four digits stands for.
pub open spec fn decode_group(digits: Seq<char>) -> Seq<u8> {
    let v0 = digit_value(digits[0]);
    let v1 = digit_value(digits[1]);
    let v2 = digit_value(digits[2]);
    let v3 = digit_value(digits[3]);
    if digits.len() < 2 {
        Seq::empty()
    } else if digits.len() == 2 {
        seq![(v0 * 4 + v1 / 16) as u8]
    } else if digits.len() == 3 {
        seq![(v0 * 4 + v1 / 16) as u8, (v1 % 16 * 16 + v2 / 4) as u8]
    } else {
        seq![
            (v0 * 4 + v1 / 16) as u8,
            (v1 % 16 * 16 + v2 / 4) as u8,
            (v2 % 4 * 64 + v3) as u8,
        ]
    }
}

/// The bytes that an unpadded URL-safe base64 text stands for.
pub open spec fn base64url_decode(text: Seq<char>) -> Seq<u8>
    decreases text.len(),
{
    if text.len() <= 4 {
        decode_group(text)
    } else {
        decode_group(text.take(4)) + base64url_decode(text.skip(4))
    }
}

/// Every value below 64 has a digit of its own, an ASCII character, and
/// [`digit_value`] leads back from the digit to the value.
pub proof fn lemma_digits()
    ensures
        alphabet().len() == 64,
        vstd::utf8::is_ascii_chars(alphabet()),
        forall|value: int|
            0 <= value < 64 ==> is_digit(#[trigger] digit(value)) && digit_value(digit(value))
                == value,
{
    reveal_strlit("ABCDEFGHIJKLMNOPQRSTUVWXYZabcdefghijklmnopqrstuvwxyz0123456789-_");
}

/// Decoding the digits of one group gives the group back.
proof fn lemma_group_round_trip(group: Seq<u8>)
    requires
        group.len() <= 3,
    ensures
        decode_group(encode_group(group)) == group,
{
    lemma_digits();
    if group.len() == 1 {
        let b0 = group[0] as int;
        assert(digit_value(digit(b0 / 4)) == b0 / 4);
        assert(digit_value(digit(b0 % 4 * 16)) == b0 % 4 * 16);
    } else if group.len() == 2 {
        let b0 = group[0] as int;
        let b1 = group[1] as int;
        assert(digit_value(digit(b0 / 4)) == b0 / 4);
        assert(digit_value(digit(b0 % 4 * 16 + b1 / 16)) == b0 % 4 * 16 + b1 / 16);
        assert(digit_value(digit(b1 % 16 * 4)) == b1 % 16 * 4);
    } else if group.len() == 3 {
        let b0 = group[0] as int;
        let b1 = group[1] as int;
        let b2 = group[2] as int;
        assert(digit_value(digit(b0 / 4)) == b0 / 4);
        assert(digit_value(digit(b0 % 4 * 16 + b1 / 16)) == b0 % 4 * 16 + b1 / 16);
        assert(digit_value(digit(b1 % 16 * 4 + b2 / 64)) == b1 % 16 * 4 + b2 / 64);
        assert(digit_value(digit(b2 % 64)) == b2 % 64);
    }
    assert(decode_group(encode_group(group)) =~= group);
}

/// The text of `n` bytes has `ceil(4n / 3)` digits: four for every three bytes, and two
/// or three for a last group of one or two.
pub proof fn lemma_encoded_length(bytes: Seq<u8>)
    ensures
        base64url(bytes).len() == (4 * bytes.len() + 2) / 3,
    decreases bytes.len(),
{
    if bytes.len() > 3 {
        lemma_encoded_length(bytes.skip(3));
    }
}

/// The digits of one group are digits indeed.
proof fn lemma_group_is_url_safe(group: Seq<u8>)
    requires
        group.len() <= 3,
    ensures
        forall|i: int|
            0 <= i < encode_group(group).len() ==> is_digit(#[trigger] encode_group(group)[i]),
{
    lemma_digits();
    let b0 = group[0] as int;
    let b1 = group[1] as int;
    let b2 = group[2] as int;
    if group.len() == 1 {
        assert(is_digit(digit(b0 / 4)) && is_digit(digit(b0 % 4 * 16)));
    } else if group.len() == 2 {
        assert(is_digit(digit(b0 / 4)) && is_digit(digit(b0 % 4 * 16 + b1 / 16)));
        assert(is_digit(digit(b1 % 16 * 4)));
    } else if group.len() == 3 {
        assert(is_digit(digit(b0 / 4)) && is_digit(digit(b0 % 4 * 16 + b1 / 16)));
        assert(is_digit(digit(b1 % 16 * 4 + b2 / 64)) && is_digit(digit(b2 % 64)));
    }
}

/// The text holds digits only: no padding, and no character that a URL would escape.
pub proof fn lemma_encoded_is_url_safe(bytes: Seq<u8>)
    ensures
        forall|i: int|
            0 <= i < base64url(bytes).len() ==> is_digit(#[trigger] base64url(bytes)[i]),
    decreases bytes.len(),
{
    if bytes.len() <= 3 {
        lemma_group_is_url_safe(bytes);
    } else {
        let head = encode_group(bytes.take(3));
        let tail = base64url(bytes.skip(3));
        lemma_group_is_url_safe(bytes.take(3));
        lemma_encoded_is_url_safe(bytes.skip(3));
        assert forall|i: int| 0 <= i < base64url(bytes).len() implies is_digit(
            #[trigger] base64url(bytes)[i],
        ) by {
            if i < head.len() {
                assert(base64url(bytes)[i] == head[i]);
            } else {
                assert(base64url(bytes)[i] == tail[i - head.len()]);
            }
        }
    }
}

/// Decoding what was encoded gives the bytes back, whatever they are.
pub proof fn lemma_decode_inverts_encode(bytes: Seq<u8>)
    ensures
        base64url_decode(base64url(bytes)) == bytes,
    decreases bytes.len(),
{
    if bytes.len() <= 3 {
        lemma_group_round_trip(bytes);
    } else {
        let head = encode_group(bytes.take(3));
        let tail = base64url(bytes.skip(3));
        lemma_encoded_length(bytes.skip(3));
        lemma_group_round_trip(bytes.take(3));
        lemma_decode_inverts_encode(bytes.skip(3));
        assert((head + tail).take(4) =~= head);
        assert((head + tail).skip(4) =~= tail);
        assert(bytes.take(3) + bytes.skip(3) =~= bytes);
    }
}

/// Different bytes have different texts.
pub proof fn lemma_encoding_is_injective(a: Seq<u8>, b: Seq<u8>)
    requires
        base64url(a) == base64url(b),
    ensures
        a == b,
{
    lemma_decode_inverts_encode(a);
    lemma_decode_inverts_encode(b);
}

/// The digit for `value`, as a text of one character.
fn digit_text(value: u8) -> (text: &'static str)
    requires
        value < 64,
    ensures
        text@ == seq![digit(value as int)],
{
    let alphabet = "ABCDEFGHIJKLMNOPQRSTUVWXYZabcdefghijklmnopqrstuvwxyz0123456789-_";
    proof {
        lemma_digits();
    }
    let at: usize = value as usize;
    let text = alphabet.substring_ascii(at, at + 1);
    assert(text@ =~= seq![digit(value as int)]);
    text
}

/// Encodes `bytes` as unpadded URL-safe base64.
pub fn encode(bytes: &[u8]) -> (text: String)
    ensures
        text@ == base64url(bytes@),
{
    let mut text = String::new();
    let mut done: usize = 0;
    assert(text@ + base64url(bytes@.skip(0)) =~= base64url(bytes@)) by {
        assert(bytes@.skip(0) =~= bytes@);
    }
    while bytes.len() - done >= 3
        invariant
            done <= bytes.len(),
            text@ + base64url(bytes@.skip(done as int)) == base64url(bytes@),
        decreases bytes.len() - done,
    {
        let b0: u8 = bytes[done];
        let b1: u8 = bytes[done + 1];
        let b2: u8 = bytes[done + 2];
        let ghost before = text@;
        let ghost rest = bytes@.skip(done as int);
        text.append(digit_text(b0 / 4));
        text.append(digit_text(b0 % 4 * 16 + b1 / 16));
        text.append(digit_text(b1 % 16 * 4 + b2 / 64));
        text.append(digit_text(b2 % 64));
        proof {
            assert(rest.skip(3) =~= bytes@.skip(done + 3));
            assert(base64url(rest) =~= encode_group(rest.take(3)) + base64url(rest.skip(3)));
            assert(text@ =~= before + encode_group(rest.take(3)));
            assert(text@ + base64url(bytes@.skip(done + 3)) =~= before + base64url(rest));
        }
        done = done + 3;
    }
    let ghost before = text@;
    let ghost rest = bytes@.skip(done as int);
    if bytes.len() - done == 1 {
        let b0: u8 = bytes[done];
        text.append(digit_text(b0 / 4));
        text.append(digit_text(b0 % 4 * 16));
    } else if bytes.len() - done == 2 {
        let b0: u8 = bytes[done];
        let b1: u8 = bytes[done + 1];
        text.append(digit_text(b0 / 4));
        text.append(digit_text(b0 % 4 * 16 + b1 / 16));
        text.append(digit_text(b1 % 16 * 4));
    }
    assert(text@ =~= before + base64url(rest));
    text
}

} // verus!
