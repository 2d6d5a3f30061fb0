//! Radix-36 text form of unsigned integers, used to keep timestamps short.

use num_bigint::BigUint;
use num_traits::Num;
use num_traits::ToPrimitive;
use vstd::prelude::*;

verus! {

/// The radix of the codec.
pub const BASE36_RADIX: u32 = 36;

/// The character that stands for the digit `d`: `0-9`, then `a-z`.
pub open spec fn digit_char(d: nat) -> char
    recommends
        d < 36,
{
    if d < 10 {
        (d + 48) as u8 as char
    } else {
        (d + 87) as u8 as char
    }
}

/// The digit that a character stands for when read; letters count in either case.
pub open spec fn digit_value(c: char) -> Option<nat> {
    let code = c as int;
    if 48 <= code <= 57 {
        Some((code - 48) as nat)
    } else if 97 <= code <= 122 {
        Some((code - 87) as nat)
    } else if 65 <= code <= 90 {
        Some((code - 55) as nat)
    } else {
        None
    }
}

/// The shortest radix-36 numeral of `n`, most significant digit first.
pub open spec fn base36_text(n: nat) -> Seq<char>
    decreases n,
{
    if n < 36 {
        seq![digit_char(n)]
    } else {
        base36_text(n / 36).push(digit_char(n % 36))
    }
}

/// The number that a run of digits denotes. An underscore between digits is
/// skipped; any other character that is no digit makes the run unreadable.
pub open spec fn digits_value(s: Seq<char>) -> Option<nat>
    decreases s.len(),
{
    if s.len() == 0 {
        Some(0)
    } else {
        match digits_value(s.drop_last()) {
            None => None,
            Some(v) => if s.last() == '_' {
                Some(v)
            } else {
                match digit_value(s.last()) {
                    Some(d) => Some(v * 36 + d),
                    None => None,
                }
            },
        }
    }
}

/// The text without one leading plus sign, unless a second one follows it.
pub open spec fn without_sign(s: Seq<char>) -> Seq<char> {
    if s.len() > 0 && s[0] == '+' && !(s.len() > 1 && s[1] == '+') {
        s.skip(1)
    } else {
        s
    }
}

/// The number that a radix-36 numeral denotes, of any size. A numeral is a run
/// of digits that is not empty and does not start with an underscore, with at
/// most one plus sign before it.
pub open spec fn numeral_value(s: Seq<char>) -> Option<nat> {
    let t = without_sign(s);
    if t.len() == 0 || t[0] == '_' {
        None
    } else {
        digits_value(t)
    }
}

/// What decoding yields: the value of the numeral where it fits in 64 bits.
pub open spec fn decoded(s: Seq<char>) -> Option<u64> {
    match numeral_value(s) {
        Some(v) => if v <= u64::MAX {
            Some(v as u64)
        } else {
            None
        },
        None => None,
    }
}

/// Whether every character is one of `0-9` and `a-z`.
pub open spec fn is_lower_digits(s: Seq<char>) -> bool {
    forall|i: int| 0 <= i < s.len() ==> is_lower_digit(#[trigger] s[i])
}

/// Whether the character is one of `0-9` and `a-z`.
pub open spec fn is_lower_digit(c: char) -> bool {
    let code = c as int;
    48 <= code <= 57 || 97 <= code <= 122
}

/// Reading the digit character of `d` gives `d` back.
pub proof fn lemma_digit_round_trip(d: nat)
    requires
        d < 36,
    ensures
        digit_value(digit_char(d)) == Some(d),
        is_lower_digit(digit_char(d)),
        digit_char(d) != '_',
        digit_char(d) != '+',
        digit_char(d) != '-',
{
}

/// An encoded number is a non-empty run of the digits `0-9a-z` whose value is
/// the number.
pub proof fn lemma_text_shape(n: nat)
    ensures
        base36_text(n).len() >= 1,
        is_lower_digits(base36_text(n)),
        digits_value(base36_text(n)) == Some(n),
    decreases n,
{
    let t = base36_text(n);
    if n < 36 {
        lemma_digit_round_trip(n);
        assert(t.drop_last() =~= Seq::<char>::empty());
        assert(digits_value(t.drop_last()) == Some(0nat));
    } else {
        lemma_text_shape(n / 36);
        lemma_digit_round_trip(n % 36);
        assert(t.drop_last() =~= base36_text(n / 36));
        assert(t.last() == digit_char(n % 36));
        assert((n / 36) * 36 + n % 36 == n);
    }
}

/// The powers of the radix.
pub open spec fn pow36(k: nat) -> nat
    decreases k,
{
    if k == 0 {
        1
    } else {
        36 * pow36((k - 1) as nat)
    }
}

/// The most digits that the text of a 64-bit number has.
pub const MAX_DIGITS: usize = 13;

/// A number below the `k`-th power of the radix has at most `k` digits.
pub proof fn lemma_text_length(n: nat, k: nat)
    requires
        k >= 1,
        n < pow36(k),
    ensures
        base36_text(n).len() <= k,
    decreases k,
{
    if n >= 36 {
        assert(pow36(1) == 36) by {
            reveal_with_fuel(pow36, 2);
        }
        lemma_text_length(n / 36, (k - 1) as nat);
    }
}

/// The text of a 64-bit number has at most `MAX_DIGITS` digits.
pub proof fn lemma_text_length_u64(n: u64)
    ensures
        base36_text(n as nat).len() <= MAX_DIGITS,
{
    assert(pow36(13) == 170581728179578208256) by {
        reveal_with_fuel(pow36, 14);
    }
    lemma_text_length(n as nat, 13);
}

/// Decoding undoes encoding: every 64-bit number comes back from its text.
pub proof fn lemma_decode_encode(n: u64)
    ensures
        decoded(base36_text(n as nat)) == Some(n),
{
    let t = base36_text(n as nat);
    lemma_text_shape(n as nat);
    assert(is_lower_digit(t[0]));
    assert(without_sign(t) == t);
}

/// The codec itself; it holds no state.
#[derive(Debug, Copy, Clone)]
pub struct Base36;

/// `BigUint::from` and `BigUint::to_str_radix` of num-bigint, at radix 36:
/// the result is the shortest numeral of `num` in the digits `0-9a-z`.
#[verifier::external_body]
fn biguint_text(num: u64) -> (text: String)
    ensures
        text@ == base36_text(num as nat),
{
    BigUint::from(num).to_str_radix(36)
}

/// `BigUint::from_str_radix` of num-bigint, at radix 36, narrowed by
/// `ToPrimitive::to_u64`: the value of the numeral, or nothing where the text
/// is no numeral or its value does not fit in 64 bits.
#[verifier::external_body]
fn biguint_parse(s: &str) -> (value: Option<u64>)
    ensures
        value == decoded(s@),
{
    match BigUint::from_str_radix(s, 36) {
        Ok(n) => n.to_u64(),
        Err(_) => None,
    }
}

impl Base36 {
    /// Reads a radix-36 numeral. Text that is no numeral, and a numeral
    /// beyond 64 bits, give `None`.
    pub fn decode(s: &str) -> (value: Option<u64>)
        ensures
            value == decoded(s@),
    {
        biguint_parse(s)
    }

    /// Writes `num` as its shortest radix-36 numeral.
    pub fn encode(num: u64) -> (text: String)
        ensures
            text@ == base36_text(num as nat),
            decoded(text@) == Some(num),
            1 <= text@.len() <= MAX_DIGITS,
    {
        proof {
            lemma_decode_encode(num);
            lemma_text_shape(num as nat);
            lemma_text_length_u64(num);
        }
        biguint_text(num)
    }
}

} // verus!
