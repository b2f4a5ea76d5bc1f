//! SHA-512 digests and their spelling in upper-case hexadecimal.

use sha2::{Digest, Sha512};
use vstd::prelude::*;

verus! {

/// The SHA-512 digest of a byte string: what `sha2::Sha512::digest` returns
/// for it.
pub uninterp spec fn sha512(data: Seq<u8>) -> Seq<u8>;

/// Calls `sha2::Sha512::digest`, which feeds `data` to a fresh hasher and
/// finalizes it. Trusted: the bytes returned are the SHA-512 digest of
/// `data`, and there are 64 of them (the hasher's output size is `U64`).
#[verifier::external_body]
pub(crate) fn sha512_digest(data: &[u8]) -> (digest: Vec<u8>)
    ensures
        digest@ == sha512(data@),
        digest@.len() == 64,
{
    Sha512::digest(data).to_vec()
}

/// `String::push` appends the given character to the end of the string.
pub assume_specification[ String::push ](text: &mut String, ch: char)
    ensures
        final(text)@ == old(text)@.push(ch),
;

/// The upper-case hexadecimal digit for a value below 16.
pub open spec fn hex_digit(value: int) -> char
    recommends
        0 <= value < 16,
{
    if value < 10 {
        (value + 48) as char
    } else {
        (value + 55) as char
    }
}

/// Two upper-case hexadecimal digits for each byte, the high half first.
pub open spec fn upper_hex(bytes: Seq<u8>) -> Seq<char> {
    Seq::new(
        2 * bytes.len(),
        |i: int|
            if i % 2 == 0 {
                hex_digit(bytes[i / 2] as int / 16)
            } else {
                hex_digit(bytes[i / 2] as int % 16)
            },
    )
}

/// Whether `c` is one of `0`..`9`, `A`..`F`.
pub open spec fn is_upper_hex_digit(c: char) -> bool {
    ('0' <= c && c <= '9') || ('A' <= c && c <= 'F')
}

fn to_hex_digit(value: u8) -> (digit: char)
    requires
        value < 16,
    ensures
        digit == hex_digit(value as int),
        is_upper_hex_digit(digit),
{
    if value < 10 {
        (value + 48) as char
    } else {
        (value + 55) as char
    }
}

/// Spells `bytes` in upper-case hexadecimal.
pub fn to_upper_hex(bytes: &[u8]) -> (text: String)
    ensures
        text@ == upper_hex(bytes@),
{
    let mut text = String::new();
    let mut done: usize = 0;
    while done < bytes.len()
        invariant
            done <= bytes@.len(),
            text@.len() == 2 * done,
            forall|i: int| 0 <= i < 2 * done ==> text@[i] == upper_hex(bytes@)[i],
        decreases bytes@.len() - done,
    {
        let byte: u8 = bytes[done];
        text.push(to_hex_digit(byte / 16));
        text.push(to_hex_digit(byte % 16));
        done = done + 1;
    }
    text
}

/// The spelling has two digits for each byte and nothing but digits.
pub proof fn lemma_upper_hex_is_digits(bytes: Seq<u8>)
    ensures
        upper_hex(bytes).len() == 2 * bytes.len(),
        forall|i: int|
            0 <= i < upper_hex(bytes).len() ==> is_upper_hex_digit(#[trigger] upper_hex(bytes)[i]),
{
}

/// Different values below 16 have different digits.
proof fn lemma_hex_digit_is_injective(first: int, second: int)
    requires
        0 <= first < 16,
        0 <= second < 16,
        hex_digit(first) == hex_digit(second),
    ensures
        first == second,
{
    assert(hex_digit(first) as int == if first < 10 {
        first + 48
    } else {
        first + 55
    });
    assert(hex_digit(second) as int == if second < 10 {
        second + 48
    } else {
        second + 55
    });
}

/// Byte strings with the same spelling are the same.
pub proof fn lemma_upper_hex_is_injective(first: Seq<u8>, second: Seq<u8>)
    requires
        upper_hex(first) == upper_hex(second),
    ensures
        first == second,
{
    assert(2 * first.len() == upper_hex(first).len() == 2 * second.len());
    assert forall|k: int| 0 <= k < first.len() implies first[k] == second[k] by {
        let x = first[k] as int;
        let y = second[k] as int;
        assert(upper_hex(first)[2 * k] == hex_digit(x / 16));
        assert(upper_hex(second)[2 * k] == hex_digit(y / 16));
        assert(upper_hex(first)[2 * k + 1] == hex_digit(x % 16));
        assert(upper_hex(second)[2 * k + 1] == hex_digit(y % 16));
        lemma_hex_digit_is_injective(x / 16, y / 16);
        lemma_hex_digit_is_injective(x % 16, y % 16);
    }
    assert(first =~= second);
}

} // verus!
