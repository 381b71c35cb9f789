//! Byte strings: equality, text, and decimal numbers.

use vstd::prelude::*;
use vstd::string::StringSliceAdditionalSpecFns;
use vstd::utf8::*;

verus! {

/// The bytes that write a text on the wire.
pub open spec fn word(text: &str) -> Seq<u8> {
    text.spec_bytes()
}

/// Appends the bytes of a text to `out`.
pub fn push_word(out: &mut Vec<u8>, text: &str)
    ensures
        final(out)@ == old(out)@ + word(text),
{
    out.extend_from_slice(text.as_bytes());
}

/// Whether two byte strings hold the same bytes.
pub fn bytes_eq(a: &[u8], b: &[u8]) -> (same: bool)
    ensures
        same == (a@ == b@),
{
    if a.len() != b.len() {
        return false;
    }
    let mut i: usize = 0;
    while i < a.len()
        invariant
            a@.len() == b@.len(),
            i <= a@.len(),
            forall|j: int| 0 <= j < i ==> a@[j] == b@[j],
        decreases a@.len() - i,
    {
        if a[i] != b[i] {
            return false;
        }
        i += 1;
    }
    assert(a@ =~= b@);
    true
}

/// Whether two strings hold the same characters.
pub fn str_eq(a: &str, b: &str) -> (same: bool)
    ensures
        same == (a@ == b@),
{
    let same = bytes_eq(a.as_bytes(), b.as_bytes());
    proof {
        encode_utf8_decode_utf8(a@);
        encode_utf8_decode_utf8(b@);
    }
    same
}

/// Whether a byte is one of the ASCII digits `0` to `9`.
pub open spec fn is_digit(byte: u8) -> bool {
    0x30 <= byte <= 0x39
}

/// Whether every byte of a text is an ASCII digit.
pub open spec fn all_digits(text: Seq<u8>) -> bool {
    forall|i: int| 0 <= i < text.len() ==> is_digit(#[trigger] text[i])
}

/// The number that a run of ASCII digits writes in base ten.
pub open spec fn digits_value(digits: Seq<u8>) -> nat
    decreases digits.len(),
{
    if digits.len() == 0 {
        0
    } else {
        digits_value(digits.drop_last()) * 10 + (digits.last() - 0x30) as nat
    }
}

/// A text without its leading `+`, if it has one.
pub open spec fn unsigned_part(text: Seq<u8>) -> Seq<u8> {
    if text.len() > 0 && text[0] == 0x2b {
        text.drop_first()
    } else {
        text
    }
}

/// Whether a text writes an unsigned decimal number: an optional `+`, then
/// one digit or more, and nothing else.
pub open spec fn is_decimal(text: Seq<u8>) -> bool {
    unsigned_part(text).len() > 0 && all_digits(unsigned_part(text))
}

/// The number that a decimal text writes.
pub open spec fn decimal_value(text: Seq<u8>) -> nat {
    digits_value(unsigned_part(text))
}

/// Why a text gave no number.
#[derive(Clone, Copy, Debug, PartialEq, Eq, Structural)]
pub enum NumberError {
    /// The text is not an unsigned decimal number.
    NotDecimal,
    /// The text is a decimal number above the largest one asked for.
    TooLarge,
}

/// What reading a text as a decimal number of at most `max` gives.
pub open spec fn decimal_upto(text: Seq<u8>, max: nat) -> Result<nat, NumberError> {
    if !is_decimal(text) {
        Err(NumberError::NotDecimal)
    } else if decimal_value(text) > max {
        Err(NumberError::TooLarge)
    } else {
        Ok(decimal_value(text))
    }
}

/// One more digit never makes the number smaller.
proof fn lemma_digits_value_step(digits: Seq<u8>, k: int)
    requires
        0 <= k < digits.len(),
        is_digit(digits[k]),
    ensures
        digits_value(digits.take(k + 1)) == digits_value(digits.take(k)) * 10 + (digits[k] - 0x30),
        digits_value(digits.take(k + 1)) >= digits_value(digits.take(k)),
{
    assert(digits.take(k + 1).drop_last() =~= digits.take(k));
    assert(digits.take(k + 1).last() == digits[k]);
}

/// Reads a text as an unsigned decimal number of at most `max`.
///
/// The text is an optional `+` followed by one digit or more; leading zeros
/// are read, and no other byte is.
pub fn parse_decimal(text: &[u8], max: u32) -> (r: Result<u32, NumberError>)
    ensures
        match r {
            Ok(n) => decimal_upto(text@, max as nat) == Ok::<nat, NumberError>(n as nat),
            Err(e) => decimal_upto(text@, max as nat) == Err::<nat, NumberError>(e),
        },
{
    let start: usize = if text.len() > 0 && text[0] == 0x2b { 1 } else { 0 };
    let ghost digits = unsigned_part(text@);
    assert(digits =~= text@.subrange(start as int, text@.len() as int));
    if start == text.len() {
        return Err(NumberError::NotDecimal);
    }
    let mut value: u32 = 0;
    let mut too_large: bool = false;
    let mut i: usize = start;
    while i < text.len()
        invariant
            start <= i <= text@.len(),
            digits == unsigned_part(text@),
            digits == text@.subrange(start as int, text@.len() as int),
            all_digits(digits.take(i - start)),
            !too_large ==> value == digits_value(digits.take(i - start)) && value <= max,
            too_large ==> digits_value(digits.take(i - start)) > max,
        decreases text@.len() - i,
    {
        let byte: u8 = text[i];
        let ghost k: int = i - start;
        assert(0 <= k < digits.len() && digits[k] == byte);
        if byte < 0x30 || byte > 0x39 {
            assert(!is_digit(digits[k]));
            return Err(NumberError::NotDecimal);
        }
        proof {
            lemma_digits_value_step(digits, k);
            assert forall|j: int| 0 <= j < k + 1 implies is_digit(
                #[trigger] digits.take(k + 1)[j],
            ) by {
                if j < k {
                    assert(digits.take(k + 1)[j] == digits.take(k)[j]);
                }
            }
        }
        if !too_large {
            let digit: u32 = (byte - 0x30) as u32;
            if digit > max || value > (max - digit) / 10 {
                too_large = true;
            } else {
                value = value * 10 + digit;
            }
        }
        i += 1;
    }
    assert(digits.take(i - start) =~= digits);
    if too_large {
        Err(NumberError::TooLarge)
    } else {
        Ok(value)
    }
}

/// The shortest decimal text of a number: its digits, most significant first.
pub open spec fn decimal_text(n: nat) -> Seq<u8>
    decreases n,
{
    if n < 10 {
        seq![(0x30 + n) as u8]
    } else {
        decimal_text(n / 10).push((0x30 + n % 10) as u8)
    }
}

/// Appends the decimal text of `n` to `out`.
pub fn push_decimal(out: &mut Vec<u8>, n: u64)
    ensures
        final(out)@ == old(out)@ + decimal_text(n as nat),
    decreases n,
{
    if n >= 10 {
        push_decimal(out, n / 10);
    }
    let digit: u8 = (n % 10) as u8;
    out.push(0x30 + digit);
    assert(out@ =~= old(out)@ + decimal_text(n as nat));
}

/// The decimal text of a number is a run of digits that writes that number.
proof fn lemma_decimal_text_digits(n: nat)
    ensures
        decimal_text(n).len() > 0,
        all_digits(decimal_text(n)),
        digits_value(decimal_text(n)) == n,
    decreases n,
{
    let text = decimal_text(n);
    if n < 10 {
        assert(text.drop_last() =~= Seq::<u8>::empty());
        assert(digits_value(text.drop_last()) == 0);
    } else {
        lemma_decimal_text_digits(n / 10);
        assert(text.drop_last() =~= decimal_text(n / 10));
    }
}

/// A number is read back from the text that writes it: `decimal_text(n)` is a
/// decimal text, and its value is `n`.
pub proof fn lemma_decimal_text_reads_back(n: nat)
    ensures
        is_decimal(decimal_text(n)),
        decimal_value(decimal_text(n)) == n,
        forall|max: nat| n <= max ==> decimal_upto(decimal_text(n), max) == Ok::<nat, NumberError>(n),
{
    lemma_decimal_text_digits(n);
    assert(is_digit(decimal_text(n)[0]));
}

/// The text that a byte string holds in UTF-8, as `core::str::from_utf8`
/// reads it: the bytes are accepted exactly when they are well-formed UTF-8,
/// and the text that comes back is written by those same bytes.
#[verifier::external_body]
fn utf8_str<'a>(bytes: &'a [u8]) -> (text: Option<&'a str>)
    ensures
        text is Some <==> valid_utf8(bytes@),
        text matches Some(t) ==> t.spec_bytes() == bytes@,
{
    match core::str::from_utf8(bytes) {
        Ok(text) => Some(text),
        Err(_) => None,
    }
}

/// Reads a byte string as UTF-8 text; `None` where the bytes are not
/// well-formed UTF-8.
pub fn text_of(bytes: &[u8]) -> (text: Option<String>)
    ensures
        text is Some <==> valid_utf8(bytes@),
        text matches Some(t) ==> t@ == decode_utf8(bytes@),
{
    match utf8_str(bytes) {
        Some(t) => {
            proof {
                encode_utf8_decode_utf8(t@);
            }
            Some(t.to_owned())
        },
        None => None,
    }
}

} // verus!
