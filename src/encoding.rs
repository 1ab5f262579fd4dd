//! Text forms of bytes and integers: hexadecimal and decimal, with the
//! parsers and printers that the transport headers use.

use vstd::prelude::*;

verus! {

/// The lower-case hexadecimal digits, by value.
pub open spec fn hex_chars() -> Seq<char> {
    seq!['0', '1', '2', '3', '4', '5', '6', '7', '8', '9', 'a', 'b', 'c', 'd', 'e', 'f']
}

/// The upper-case hexadecimal digits, by value.
pub open spec fn hex_upper_chars() -> Seq<char> {
    seq!['0', '1', '2', '3', '4', '5', '6', '7', '8', '9', 'A', 'B', 'C', 'D', 'E', 'F']
}

/// Nibble `i` of some bytes, high nibble first.
pub open spec fn nibble(b: Seq<u8>, i: int) -> int {
    if i % 2 == 0 {
        b[i / 2] as int / 16
    } else {
        b[i / 2] as int % 16
    }
}

/// The decimal digits, by value.
pub open spec fn decimal_chars() -> Seq<char> {
    seq!['0', '1', '2', '3', '4', '5', '6', '7', '8', '9']
}

pub open spec fn is_decimal_digit(c: char) -> bool {
    48 <= (c as u32) <= 57
}

pub open spec fn is_hex_digit(c: char) -> bool {
    is_decimal_digit(c) || (97 <= (c as u32) <= 102) || (65 <= (c as u32) <= 70)
}

/// The value of a hexadecimal digit of either case.
pub open spec fn hex_digit_value(c: char) -> nat {
    if is_decimal_digit(c) {
        ((c as u32) - 48) as nat
    } else if 97 <= (c as u32) <= 102 {
        ((c as u32) - 87) as nat
    } else {
        ((c as u32) - 55) as nat
    }
}

/// The code of a character with ASCII upper-case letters turned to lower case.
pub open spec fn lower_code(c: char) -> u32 {
    if 65 <= (c as u32) <= 90 {
        ((c as u32) + 32) as u32
    } else {
        c as u32
    }
}

/// Two character sequences that differ at most in the case of ASCII letters.
pub open spec fn same_up_to_case(a: Seq<char>, b: Seq<char>) -> bool {
    &&& a.len() == b.len()
    &&& forall|i: int| 0 <= i < a.len() ==> lower_code(#[trigger] a[i]) == lower_code(b[i])
}

/// Lower-case hexadecimal of bytes, two digits per byte, high nibble first.
pub open spec fn hex_lower(b: Seq<u8>) -> Seq<char> {
    Seq::new(
        2 * b.len(),
        |i: int|
            if i % 2 == 0 {
                hex_chars()[b[i / 2] as int / 16]
            } else {
                hex_chars()[b[i / 2] as int % 16]
            },
    )
}

/// `s` without a leading `0x` or `0X`.
pub open spec fn strip_hex_prefix(s: Seq<char>) -> Seq<char> {
    if s.len() >= 2 && (s[0] as u32) == 48 && ((s[1] as u32) == 120 || (s[1] as u32) == 88) {
        s.subrange(2, s.len() as int)
    } else {
        s
    }
}

/// The bytes that a hexadecimal string stands for: an optional `0x` or `0X`
/// prefix, then an even number of hexadecimal digits of either case.
pub open spec fn hex_decoded(s: Seq<char>) -> Option<Seq<u8>> {
    let d = strip_hex_prefix(s);
    if d.len() % 2 == 0 && forall|i: int| 0 <= i < d.len() ==> is_hex_digit(#[trigger] d[i]) {
        Some(
            Seq::new(
                (d.len() / 2) as nat,
                |i: int| (hex_digit_value(d[2 * i]) * 16 + hex_digit_value(d[2 * i + 1])) as u8,
            ),
        )
    } else {
        None
    }
}

/// Shortest decimal form of a number, without sign or leading zeros.
pub open spec fn decimal_digits(n: nat) -> Seq<char>
    decreases n,
{
    if n < 10 {
        seq![decimal_chars()[n as int]]
    } else {
        decimal_digits(n / 10).push(decimal_chars()[(n % 10) as int])
    }
}

/// The number that a string of decimal digits stands for.
pub open spec fn decimal_value(s: Seq<char>) -> nat
    decreases s.len(),
{
    if s.len() == 0 {
        0
    } else {
        decimal_value(s.drop_last()) * 10 + ((s.last() as u32) - 48) as nat
    }
}

/// What `u64`'s parser makes of a string: an optional `+`, then one or more
/// decimal digits whose value fits in 64 bits.
pub open spec fn parsed_u64(s: Seq<char>) -> Option<u64> {
    let d = if s.len() > 0 && s[0] == '+' {
        s.drop_first()
    } else {
        s
    };
    if d.len() > 0 && (forall|i: int| 0 <= i < d.len() ==> is_decimal_digit(#[trigger] d[i]))
        && decimal_value(d) <= u64::MAX {
        Some(decimal_value(d) as u64)
    } else {
        None
    }
}

proof fn lemma_hex_char(k: int)
    requires
        0 <= k < 16,
    ensures
        is_hex_digit(hex_chars()[k]),
        hex_digit_value(hex_chars()[k]) == k,
        48 <= (hex_chars()[k] as u32) <= 57 || 97 <= (hex_chars()[k] as u32) <= 102,
{
    if k == 0 {
        assert(hex_chars()[k] == '0');
    } else if k == 1 {
        assert(hex_chars()[k] == '1');
    } else if k == 2 {
        assert(hex_chars()[k] == '2');
    } else if k == 3 {
        assert(hex_chars()[k] == '3');
    } else if k == 4 {
        assert(hex_chars()[k] == '4');
    } else if k == 5 {
        assert(hex_chars()[k] == '5');
    } else if k == 6 {
        assert(hex_chars()[k] == '6');
    } else if k == 7 {
        assert(hex_chars()[k] == '7');
    } else if k == 8 {
        assert(hex_chars()[k] == '8');
    } else if k == 9 {
        assert(hex_chars()[k] == '9');
    } else if k == 10 {
        assert(hex_chars()[k] == 'a');
    } else if k == 11 {
        assert(hex_chars()[k] == 'b');
    } else if k == 12 {
        assert(hex_chars()[k] == 'c');
    } else if k == 13 {
        assert(hex_chars()[k] == 'd');
    } else if k == 14 {
        assert(hex_chars()[k] == 'e');
    } else {
        assert(hex_chars()[k] == 'f');
    }
}

proof fn lemma_decimal_char(k: int)
    requires
        0 <= k < 10,
    ensures
        decimal_chars()[k] == hex_chars()[k],
{
    lemma_hex_char(k);
    if k == 0 {
        assert(decimal_chars()[k] == '0');
    } else if k == 1 {
        assert(decimal_chars()[k] == '1');
    } else if k == 2 {
        assert(decimal_chars()[k] == '2');
    } else if k == 3 {
        assert(decimal_chars()[k] == '3');
    } else if k == 4 {
        assert(decimal_chars()[k] == '4');
    } else if k == 5 {
        assert(decimal_chars()[k] == '5');
    } else if k == 6 {
        assert(decimal_chars()[k] == '6');
    } else if k == 7 {
        assert(decimal_chars()[k] == '7');
    } else if k == 8 {
        assert(decimal_chars()[k] == '8');
    } else {
        assert(decimal_chars()[k] == '9');
    }
}

/// An upper-case hexadecimal digit differs from the lower-case one of the
/// same value at most in case.
pub proof fn lemma_hex_digit_cases(k: int)
    requires
        0 <= k < 16,
    ensures
        lower_code(hex_upper_chars()[k]) == lower_code(hex_chars()[k]),
{
    if k == 0 {
        assert(hex_upper_chars()[k] == '0' && hex_chars()[k] == '0');
    } else if k == 1 {
        assert(hex_upper_chars()[k] == '1' && hex_chars()[k] == '1');
    } else if k == 2 {
        assert(hex_upper_chars()[k] == '2' && hex_chars()[k] == '2');
    } else if k == 3 {
        assert(hex_upper_chars()[k] == '3' && hex_chars()[k] == '3');
    } else if k == 4 {
        assert(hex_upper_chars()[k] == '4' && hex_chars()[k] == '4');
    } else if k == 5 {
        assert(hex_upper_chars()[k] == '5' && hex_chars()[k] == '5');
    } else if k == 6 {
        assert(hex_upper_chars()[k] == '6' && hex_chars()[k] == '6');
    } else if k == 7 {
        assert(hex_upper_chars()[k] == '7' && hex_chars()[k] == '7');
    } else if k == 8 {
        assert(hex_upper_chars()[k] == '8' && hex_chars()[k] == '8');
    } else if k == 9 {
        assert(hex_upper_chars()[k] == '9' && hex_chars()[k] == '9');
    } else if k == 10 {
        assert(hex_upper_chars()[k] == 'A' && hex_chars()[k] == 'a');
    } else if k == 11 {
        assert(hex_upper_chars()[k] == 'B' && hex_chars()[k] == 'b');
    } else if k == 12 {
        assert(hex_upper_chars()[k] == 'C' && hex_chars()[k] == 'c');
    } else if k == 13 {
        assert(hex_upper_chars()[k] == 'D' && hex_chars()[k] == 'd');
    } else if k == 14 {
        assert(hex_upper_chars()[k] == 'E' && hex_chars()[k] == 'e');
    } else {
        assert(hex_upper_chars()[k] == 'F' && hex_chars()[k] == 'f');
    }
}

/// Hexadecimal text that differs from lower-case hexadecimal of `b` at most
/// in case decodes to `b`.
pub proof fn lemma_hex_decodes_up_to_case(b: Seq<u8>, t: Seq<char>)
    requires
        same_up_to_case(t, hex_lower(b)),
        !(t.len() >= 2 && (t[0] as u32) == 48 && ((t[1] as u32) == 120 || (t[1] as u32) == 88)),
    ensures
        hex_decoded(t) == Some(b),
{
    let h = hex_lower(b);
    assert(strip_hex_prefix(t) == t);
    assert forall|i: int| 0 <= i < t.len() implies is_hex_digit(#[trigger] t[i])
        && hex_digit_value(t[i]) == hex_digit_value(h[i]) by {
        assert(lower_code(t[i]) == lower_code(h[i]));
        let k = if i % 2 == 0 {
            b[i / 2] as int / 16
        } else {
            b[i / 2] as int % 16
        };
        lemma_hex_char(k);
    }
    let d = Seq::new(
        (t.len() / 2) as nat,
        |i: int| (hex_digit_value(t[2 * i]) * 16 + hex_digit_value(t[2 * i + 1])) as u8,
    );
    assert forall|i: int| 0 <= i < b.len() implies d[i] == b[i] by {
        assert((2 * i) % 2 == 0 && (2 * i) / 2 == i);
        assert((2 * i + 1) % 2 == 1 && (2 * i + 1) / 2 == i);
        assert(hex_digit_value(t[2 * i]) == hex_digit_value(h[2 * i]));
        assert(hex_digit_value(t[2 * i + 1]) == hex_digit_value(h[2 * i + 1]));
        lemma_hex_char(b[i] as int / 16);
        lemma_hex_char(b[i] as int % 16);
    }
    assert(d =~= b);
}

/// `0x` followed by text that differs from lower-case hexadecimal of `b` at
/// most in case decodes to `b`.
pub proof fn lemma_prefixed_hex_decodes_up_to_case(b: Seq<u8>, t: Seq<char>)
    requires
        same_up_to_case(t, seq!['0', 'x'] + hex_lower(b)),
    ensures
        hex_decoded(t) == Some(b),
{
    let p = seq!['0', 'x'] + hex_lower(b);
    assert(lower_code(t[0]) == lower_code(p[0]));
    assert(lower_code(t[1]) == lower_code(p[1]));
    let rest = t.subrange(2, t.len() as int);
    assert(strip_hex_prefix(t) == rest);
    assert forall|i: int| 0 <= i < rest.len() implies lower_code(#[trigger] rest[i]) == lower_code(
        hex_lower(b)[i],
    ) by {
        assert(rest[i] == t[i + 2]);
        assert(p[i + 2] == hex_lower(b)[i]);
    }
    if rest.len() >= 2 && (rest[0] as u32) == 48 && ((rest[1] as u32) == 120 || (rest[1] as u32)
        == 88) {
        lemma_hex_char(b[0] as int % 16);
        assert(lower_code(rest[1]) == lower_code(hex_lower(b)[1]));
    }
    lemma_hex_decodes_up_to_case(b, rest);
    assert(hex_decoded(t) == hex_decoded(rest));
}

/// The shortest decimal form of `n` is a string of digits that stands for `n`.
pub proof fn lemma_decimal_digits(n: nat)
    ensures
        decimal_digits(n).len() > 0,
        forall|i: int| 0 <= i < decimal_digits(n).len() ==> is_decimal_digit(
            #[trigger] decimal_digits(n)[i],
        ),
        decimal_value(decimal_digits(n)) == n,
    decreases n,
{
    if n < 10 {
        lemma_decimal_char(n as int);
        lemma_hex_char(n as int);
        let s = decimal_digits(n);
        assert(s.drop_last() =~= Seq::<char>::empty());
        assert(decimal_value(s.drop_last()) == 0);
    } else {
        lemma_decimal_digits(n / 10);
        lemma_decimal_char((n % 10) as int);
        lemma_hex_char((n % 10) as int);
        let s = decimal_digits(n);
        assert(s.drop_last() =~= decimal_digits(n / 10));
    }
}

/// Printing a `u64` in decimal and parsing it back gives the same number.
pub proof fn lemma_u64_text_round_trip(n: u64)
    ensures
        parsed_u64(decimal_digits(n as nat)) == Some(n),
{
    lemma_decimal_digits(n as nat);
    let s = decimal_digits(n as nat);
    assert(is_decimal_digit(s[0]));
    assert((s[0] as u32) != 43);
}

/// Relies on alloy's hex::encode: lower-case digits, two per byte, no prefix.
#[verifier::external_body]
pub(crate) fn hex_encode(b: &[u8]) -> (r: String)
    ensures
        r@ == hex_lower(b@),
{
    alloy::hex::encode(b)
}

/// Relies on alloy's hex::decode: strips one `0x`/`0X`, then needs an even
/// number of hexadecimal digits of either case.
#[verifier::external_body]
pub(crate) fn hex_decode(s: &str) -> (r: Result<Vec<u8>, String>)
    ensures
        match r {
            Ok(v) => hex_decoded(s@) == Some(v@),
            Err(_) => hex_decoded(s@) is None,
        },
{
    alloy::hex::decode(s).map_err(|e| e.to_string())
}

/// Relies on `u64`'s `Display`: the shortest decimal form.
#[verifier::external_body]
pub(crate) fn u64_to_string(n: u64) -> (r: String)
    ensures
        r@ == decimal_digits(n as nat),
{
    n.to_string()
}

/// Relies on `u64`'s `FromStr`: an optional `+`, then decimal digits that fit.
#[verifier::external_body]
pub(crate) fn parse_u64(s: &str) -> (r: Result<u64, String>)
    ensures
        match r {
            Ok(n) => parsed_u64(s@) == Some(n),
            Err(_) => parsed_u64(s@) is None,
        },
{
    s.parse::<u64>().map_err(|e| e.to_string())
}

} // verus!
