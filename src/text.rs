//! Text conversions between the encodings the native APIs speak (UTF-16,
//! UTF-8) and Rust strings, and the numeric renderings used in diagnostics.

use vstd::prelude::*;
use vstd::utf8::{decode_utf8, valid_utf8};

verus! {

/// The character that stands in for undecodable input.
pub const REPLACEMENT: char = '\u{FFFD}';

pub open spec fn is_high_surrogate(u: u16) -> bool {
    0xD800 <= u <= 0xDBFF
}

pub open spec fn is_low_surrogate(u: u16) -> bool {
    0xDC00 <= u <= 0xDFFF
}

pub open spec fn is_surrogate(u: u16) -> bool {
    0xD800 <= u <= 0xDFFF
}

/// The scalar value encoded by a surrogate pair.
pub open spec fn pair_scalar(high: u16, low: u16) -> u32 {
    (0x10000 + (high - 0xD800) * 0x400 + (low - 0xDC00)) as u32
}

/// UTF-16 decoding in which every unpaired surrogate becomes `REPLACEMENT`.
pub open spec fn utf16_decode_lossy(units: Seq<u16>) -> Seq<char>
    decreases units.len(),
{
    if units.len() == 0 {
        seq![]
    } else if units.len() >= 2 && is_high_surrogate(units[0]) && is_low_surrogate(units[1]) {
        seq![pair_scalar(units[0], units[1]) as char] + utf16_decode_lossy(
            units.subrange(2, units.len() as int),
        )
    } else if is_surrogate(units[0]) {
        seq![REPLACEMENT] + utf16_decode_lossy(units.subrange(1, units.len() as int))
    } else {
        seq![(units[0] as u32) as char] + utf16_decode_lossy(units.subrange(1, units.len() as int))
    }
}

/// The UTF-16 code units of one character.
pub open spec fn utf16_encode_char(c: char) -> Seq<u16> {
    let v = c as u32;
    if v < 0x10000 {
        seq![v as u16]
    } else {
        let w = (v - 0x10000) as int;
        seq![(0xD800 + w / 0x400) as u16, (0xDC00 + w % 0x400) as u16]
    }
}

/// The UTF-16 code units of a character sequence.
pub open spec fn utf16_encode(s: Seq<char>) -> Seq<u16>
    decreases s.len(),
{
    if s.len() == 0 {
        seq![]
    } else {
        utf16_encode_char(s[0]) + utf16_encode(s.subrange(1, s.len() as int))
    }
}

/// What `String::from_utf8_lossy` makes of a byte sequence.
pub uninterp spec fn utf8_lossy(bytes: Seq<u8>) -> Seq<char>;

pub open spec fn hex_digit(d: int) -> char {
    if d == 0 {
        '0'
    } else if d == 1 {
        '1'
    } else if d == 2 {
        '2'
    } else if d == 3 {
        '3'
    } else if d == 4 {
        '4'
    } else if d == 5 {
        '5'
    } else if d == 6 {
        '6'
    } else if d == 7 {
        '7'
    } else if d == 8 {
        '8'
    } else if d == 9 {
        '9'
    } else if d == 10 {
        'A'
    } else if d == 11 {
        'B'
    } else if d == 12 {
        'C'
    } else if d == 13 {
        'D'
    } else if d == 14 {
        'E'
    } else {
        'F'
    }
}

/// The last `n` upper-case hexadecimal digits of `v`, most significant first.
pub open spec fn hex_digits(v: nat, n: nat) -> Seq<char>
    decreases n,
{
    if n == 0 {
        seq![]
    } else {
        hex_digits(v / 16, (n - 1) as nat).push(hex_digit((v % 16) as int))
    }
}

pub open spec fn pow16(n: nat) -> nat
    decreases n,
{
    if n == 0 {
        1
    } else {
        16 * pow16((n - 1) as nat)
    }
}

/// Equal renderings come from values that agree in their last `n` digits.
pub proof fn lemma_hex_digits_determine_value(a: nat, b: nat, n: nat)
    requires
        hex_digits(a, n) == hex_digits(b, n),
    ensures
        a % pow16(n) == b % pow16(n),
    decreases n,
{
    if n == 0 {
        assert(a % 1 == 0 && b % 1 == 0) by (nonlinear_arith);
    } else {
        let m = (n - 1) as nat;
        let da = (a % 16) as int;
        let db = (b % 16) as int;
        assert(hex_digits(a, n).last() == hex_digit(da));
        assert(hex_digits(b, n).last() == hex_digit(db));
        assert(0 <= da < 16 && 0 <= db < 16);
        assert(da == db);
        assert(hex_digits(a, n).drop_last() =~= hex_digits(a / 16, m));
        assert(hex_digits(b, n).drop_last() =~= hex_digits(b / 16, m));
        lemma_hex_digits_determine_value(a / 16, b / 16, m);
        lemma_pow16_positive(m);
        vstd::arithmetic::div_mod::lemma_mod_breakdown(a as int, 16, pow16(m) as int);
        vstd::arithmetic::div_mod::lemma_mod_breakdown(b as int, 16, pow16(m) as int);
    }
}

proof fn lemma_pow16_positive(n: nat)
    ensures
        pow16(n) > 0,
    decreases n,
{
    if n > 0 {
        lemma_pow16_positive((n - 1) as nat);
    }
}

/// `0x` followed by exactly eight upper-case hexadecimal digits.
pub open spec fn hex_text(v: u32) -> Seq<char> {
    seq!['0', 'x'] + hex_digits(v as nat, 8)
}

pub proof fn lemma_hex_digits_len(v: nat, n: nat)
    ensures
        hex_digits(v, n).len() == n,
    decreases n,
{
    if n > 0 {
        lemma_hex_digits_len(v / 16, (n - 1) as nat);
    }
}

/// The rendering loses nothing: the code can be read back from its text.
pub proof fn lemma_hex_text_determines_code(a: u32, b: u32)
    requires
        hex_text(a) == hex_text(b),
    ensures
        a == b,
{
    assert(hex_digits(a as nat, 8) =~= hex_text(a).subrange(2, hex_text(a).len() as int));
    assert(hex_digits(b as nat, 8) =~= hex_text(b).subrange(2, hex_text(b).len() as int));
    lemma_hex_digits_determine_value(a as nat, b as nat, 8);
    reveal_with_fuel(pow16, 9);
    assert(pow16(8) == 0x1_0000_0000);
    vstd::arithmetic::div_mod::lemma_small_mod(a as nat, 0x1_0000_0000);
    vstd::arithmetic::div_mod::lemma_small_mod(b as nat, 0x1_0000_0000);
}

pub open spec fn decimal_digit(d: int) -> char {
    seq!['0', '1', '2', '3', '4', '5', '6', '7', '8', '9'][d]
}

/// The decimal digits of `n` without leading zeros (`0` for zero).
pub open spec fn decimal_digits(n: nat) -> Seq<char>
    decreases n,
{
    if n < 10 {
        seq![decimal_digit(n as int)]
    } else {
        decimal_digits(n / 10).push(decimal_digit((n % 10) as int))
    }
}

/// A signed decimal rendering, with `-` before negative values.
pub open spec fn decimal_text(v: int) -> Seq<char> {
    if v < 0 {
        seq!['-'] + decimal_digits((-v) as nat)
    } else {
        decimal_digits(v as nat)
    }
}

/// Relies on `core::char::decode_utf16`: it yields each scalar value of
/// the input in order and an error for each unpaired surrogate, which is
/// replaced here by `REPLACEMENT`.
#[verifier::external_body]
pub(crate) fn decode_utf16_lossy(code_units: &[u16]) -> (r: Vec<char>)
    ensures
        r@ == utf16_decode_lossy(code_units@),
{
    core::char::decode_utf16(code_units.iter().copied()).map(|r| r.unwrap_or(REPLACEMENT)).collect()
}

/// Relies on `str::encode_utf16`: the UTF-16 code units of the string, in
/// order.
#[verifier::external_body]
pub(crate) fn encode_utf16(s: &str) -> (r: Vec<u16>)
    ensures
        r@ == utf16_encode(s@),
{
    s.encode_utf16().collect()
}

/// Relies on `String: FromIterator<char>`: the characters, in order.
#[verifier::external_body]
pub(crate) fn string_from_chars(cs: &[char]) -> (r: String)
    ensures
        r@ == cs@,
{
    cs.iter().collect()
}

/// Relies on `core::str::from_utf8`: it accepts exactly the well-formed
/// UTF-8 byte sequences.
#[verifier::external_body]
pub(crate) fn utf8_text(bytes: &[u8]) -> (r: Option<String>)
    ensures
        r.is_some() == valid_utf8(bytes@),
        r.is_some() ==> r.unwrap()@ == decode_utf8(bytes@),
{
    core::str::from_utf8(bytes).ok().map(|s| s.to_string())
}

/// Relies on `String::from_utf8_lossy`, which returns well-formed input
/// unchanged.
#[verifier::external_body]
pub(crate) fn utf8_text_lossy(bytes: &[u8]) -> (r: String)
    ensures
        r@ == utf8_lossy(bytes@),
        valid_utf8(bytes@) ==> r@ == decode_utf8(bytes@),
{
    String::from_utf8_lossy(bytes).into_owned()
}

/// Relies on `format!` with `{:08X}`: eight upper-case hexadecimal digits,
/// zero-padded.
#[verifier::external_body]
pub(crate) fn hex_string(v: u32) -> (r: String)
    ensures
        r@ == hex_text(v),
{
    format!("0x{:08X}", v)
}

/// Relies on `format!` with `{}` on an `i32`: its decimal rendering.
#[verifier::external_body]
pub(crate) fn decimal_string(v: i32) -> (r: String)
    ensures
        r@ == decimal_text(v as int),
{
    format!("{}", v)
}

} // verus!
