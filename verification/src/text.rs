//! Decimal text of integers and comparison of strings in constant time.

use crate::base36::digit_char;
use vstd::prelude::*;
use vstd::string::StrSliceExecFns;
use vstd::string::StringExecFns;
use vstd::utf8::encode_utf8;

verus! {

/// The decimal digits of `n`, without leading zeros.
pub open spec fn decimal_digits(n: nat) -> Seq<char>
    decreases n,
{
    if n < 10 {
        seq![digit_char(n)]
    } else {
        decimal_digits(n / 10).push(digit_char(n % 10))
    }
}

/// The decimal text of `n`: a minus sign where it is negative, then its digits.
pub open spec fn decimal_text(n: int) -> Seq<char> {
    if n < 0 {
        seq!['-'] + decimal_digits((-n) as nat)
    } else {
        decimal_digits(n as nat)
    }
}

/// The number that a run of the digits `0-9` denotes; a run with any other
/// character in it denotes none.
pub open spec fn decimal_value(s: Seq<char>) -> Option<nat>
    decreases s.len(),
{
    if s.len() == 0 {
        Some(0)
    } else {
        let code = s.last() as int;
        match decimal_value(s.drop_last()) {
            Some(v) => if 48 <= code <= 57 {
                Some((v * 10 + (code - 48)) as nat)
            } else {
                None
            },
            None => None,
        }
    }
}

/// The 64-bit number that a decimal text stands for: a run of digits that is
/// not empty, with at most one sign before it, whose value is in range.
pub open spec fn parsed_i64(text: Seq<char>) -> Option<i64> {
    let negative = text.len() > 0 && text[0] == '-';
    let signed = text.len() > 0 && (text[0] == '-' || text[0] == '+');
    let digits = if signed {
        text.skip(1)
    } else {
        text
    };
    if digits.len() == 0 {
        None
    } else {
        match decimal_value(digits) {
            Some(v) => if negative && v <= 0x8000_0000_0000_0000 {
                Some((-v) as i64)
            } else if !negative && v <= i64::MAX {
                Some(v as i64)
            } else {
                None
            },
            None => None,
        }
    }
}

/// The decimal digits of a number are a run of digits that is not empty and
/// denotes the number.
pub proof fn lemma_decimal_digits(n: nat)
    ensures
        decimal_digits(n).len() >= 1,
        decimal_digits(n)[0] != '-',
        decimal_digits(n)[0] != '+',
        decimal_value(decimal_digits(n)) == Some(n),
    decreases n,
{
    let t = decimal_digits(n);
    if n < 10 {
        assert(t.drop_last() =~= Seq::<char>::empty());
        assert(decimal_value(t.drop_last()) == Some(0nat));
    } else {
        lemma_decimal_digits(n / 10);
        assert(t.drop_last() =~= decimal_digits(n / 10));
        assert(t.last() == digit_char(n % 10));
        assert(t[0] == decimal_digits(n / 10)[0]);
        assert((n / 10) * 10 + n % 10 == n);
    }
}

/// Reading the decimal text of a 64-bit number gives the number back.
pub proof fn lemma_parse_decimal_text(n: i64)
    ensures
        parsed_i64(decimal_text(n as int)) == Some(n),
{
    let text = decimal_text(n as int);
    if n < 0 {
        let digits = decimal_digits((-n) as nat);
        lemma_decimal_digits((-n) as nat);
        assert(text.skip(1) =~= digits);
    } else {
        lemma_decimal_digits(n as nat);
    }
}

/// A run that denotes a number holds digits only.
pub proof fn lemma_decimal_value_digits(s: Seq<char>, i: int)
    requires
        decimal_value(s) is Some,
        0 <= i < s.len(),
    ensures
        48 <= s[i] as int <= 57,
    decreases s.len(),
{
    if i < s.len() - 1 {
        lemma_decimal_value_digits(s.drop_last(), i);
    }
}

/// Every start of a run that denotes a number denotes a number that is not
/// greater.
pub proof fn lemma_decimal_value_prefix(s: Seq<char>, k: int)
    requires
        decimal_value(s) is Some,
        0 <= k <= s.len(),
    ensures
        decimal_value(s.subrange(0, k)) is Some,
        decimal_value(s.subrange(0, k))->0 <= decimal_value(s)->0,
    decreases s.len(),
{
    if k == s.len() {
        assert(s.subrange(0, k) =~= s);
    } else {
        lemma_decimal_value_prefix(s.drop_last(), k);
        assert(s.drop_last().subrange(0, k) =~= s.subrange(0, k));
    }
}

/// The greatest magnitude of a 64-bit number.
pub const MAX_MAGNITUDE: u64 = 0x8000_0000_0000_0000;

/// Reads a decimal text as a 64-bit number: a run of digits that is not
/// empty, with at most one sign before it. Any other text, and a number out
/// of range, give `None`.
pub fn parse_decimal(text: &str) -> (number: Option<i64>)
    ensures
        number == parsed_i64(text@),
{
    let length: usize = text.unicode_len();
    if length == 0 {
        return None;
    }
    if !text.is_ascii() {
        proof {
            let i = choose|i: int|
                0 <= i < text@.len() && !('\0' <= #[trigger] text@[i] <= '\u{7f}');
            let signed = text@[0] == '-' || text@[0] == '+';
            let digits = if signed {
                text@.skip(1)
            } else {
                text@
            };
            if decimal_value(digits) is Some {
                if signed {
                    assert(i >= 1);
                    lemma_decimal_value_digits(digits, i - 1);
                } else {
                    lemma_decimal_value_digits(digits, i);
                }
            }
        }
        return None;
    }
    let first: u8 = text.get_ascii(0);
    let negative: bool = first == 45;
    let start: usize = if first == 45 || first == 43 {
        1
    } else {
        0
    };
    if start == length {
        return None;
    }
    let ghost digits = text@.skip(start as int);
    proof {
        assert('\0' <= text@[0] <= '\u{7f}');
        assert(text@[0] as int == first);
        assert((text@[0] == '-') == (first == 45));
        assert((text@[0] == '+') == (first == 43));
        if start == 0 {
            assert(digits =~= text@);
        }
    }
    let mut value: u64 = 0;
    let mut i: usize = start;
    while i < length
        invariant
            text.is_ascii(),
            length == text@.len(),
            start <= i <= length,
            digits == text@.skip(start as int),
            start == 0 ==> digits == text@,
            (start == 1) == (text@[0] == '-' || text@[0] == '+'),
            start <= 1,
            decimal_value(digits.subrange(0, i - start)) == Some(value as nat),
            value <= MAX_MAGNITUDE,
        decreases length - i,
    {
        let code: u8 = text.get_ascii(i);
        assert(digits[i - start] == text@[i as int]);
        assert('\0' <= text@[i as int] <= '\u{7f}');
        assert(text@[i as int] as int == code);
        if code < 48 || code > 57 {
            proof {
                if decimal_value(digits) is Some {
                    lemma_decimal_value_digits(digits, i - start);
                }
            }
            return None;
        }
        let d: u64 = (code - 48) as u64;
        proof {
            let longer = digits.subrange(0, i - start + 1);
            assert(longer.drop_last() =~= digits.subrange(0, i - start));
            assert(longer.last() == digits[i - start]);
            assert(decimal_value(longer) == Some((value * 10 + d) as nat));
            if decimal_value(digits) is Some {
                lemma_decimal_value_prefix(digits, i - start + 1);
            }
        }
        if value > (MAX_MAGNITUDE - d) / 10 {
            assert(value * 10 + d > MAX_MAGNITUDE);
            return None;
        }
        value = value * 10 + d;
        i = i + 1;
    }
    assert(digits.subrange(0, i - start) =~= digits);
    if negative {
        if value == MAX_MAGNITUDE {
            Some(i64::MIN)
        } else {
            Some(-(value as i64))
        }
    } else if value <= i64::MAX as u64 {
        Some(value as i64)
    } else {
        None
    }
}

/// The text of one decimal digit.
fn digit_str(d: u64) -> (text: &'static str)
    requires
        d < 10,
    ensures
        text@ == seq![digit_char(d as nat)],
{
    proof {
        reveal_strlit("0");
        reveal_strlit("1");
        reveal_strlit("2");
        reveal_strlit("3");
        reveal_strlit("4");
        reveal_strlit("5");
        reveal_strlit("6");
        reveal_strlit("7");
        reveal_strlit("8");
        reveal_strlit("9");
    }
    let text = if d == 0 {
        "0"
    } else if d == 1 {
        "1"
    } else if d == 2 {
        "2"
    } else if d == 3 {
        "3"
    } else if d == 4 {
        "4"
    } else if d == 5 {
        "5"
    } else if d == 6 {
        "6"
    } else if d == 7 {
        "7"
    } else if d == 8 {
        "8"
    } else {
        "9"
    };
    assert(text@ =~= seq![digit_char(d as nat)]);
    text
}

/// Writes the decimal digits of `n` behind what `out` holds.
fn push_decimal_digits(n: u64, out: &mut String)
    ensures
        final(out)@ == old(out)@ + decimal_digits(n as nat),
    decreases n,
{
    if n >= 10 {
        push_decimal_digits(n / 10, out);
    }
    out.append(digit_str(n % 10));
    proof {
        if n >= 10 {
            assert(out@ =~= old(out)@ + decimal_digits((n / 10) as nat).push(
                digit_char((n % 10) as nat),
            ));
        } else {
            assert(out@ =~= old(out)@ + seq![digit_char(n as nat)]);
        }
    }
}

/// The decimal text of a number, as formatting it for display writes it.
pub fn decimal_string(n: i64) -> (text: String)
    ensures
        text@ == decimal_text(n as int),
        parsed_i64(text@) == Some(n),
{
    proof {
        lemma_parse_decimal_text(n);
    }
    let mut text = String::new();
    if n < 0 {
        text.append("-");
        proof {
            reveal_strlit("-");
        }
        let magnitude: u64 = ((-(n + 1)) as u64) + 1;
        push_decimal_digits(magnitude, &mut text);
        assert(text@ =~= seq!['-'] + decimal_digits((-n) as nat));
    } else {
        push_decimal_digits(n as u64, &mut text);
        assert(text@ =~= decimal_digits(n as nat));
    }
    text
}

/// Whether two strings are equal, found without stopping at the first
/// difference: the time taken depends on the lengths alone.
pub fn constant_time_eq(a: &str, b: &str) -> (same: bool)
    ensures
        same == (a@ == b@),
{
    let x = a.as_bytes();
    let y = b.as_bytes();
    proof {
        vstd::utf8::encode_utf8_decode_utf8(a@);
        vstd::utf8::encode_utf8_decode_utf8(b@);
    }
    if x.len() != y.len() {
        return false;
    }
    let mut diff: u8 = 0;
    let mut i: usize = 0;
    while i < x.len()
        invariant
            i <= x@.len(),
            x@.len() == y@.len(),
            (diff == 0) == (x@.subrange(0, i as int) =~= y@.subrange(0, i as int)),
        decreases x@.len() - i,
    {
        let p: u8 = x[i];
        let q: u8 = y[i];
        let ghost before: u8 = diff;
        diff = diff | (p ^ q);
        proof {
            assert(((before | (p ^ q)) == 0) == (before == 0 && p == q)) by (bit_vector);
            let xs = x@.subrange(0, i as int + 1);
            let ys = y@.subrange(0, i as int + 1);
            assert(xs.drop_last() == x@.subrange(0, i as int));
            assert(ys.drop_last() == y@.subrange(0, i as int));
            assert(xs.last() == p);
            assert(ys.last() == q);
            if before == 0 && p == q {
                assert(xs =~= xs.drop_last().push(p));
                assert(ys =~= ys.drop_last().push(q));
            }
        }
        i = i + 1;
    }
    proof {
        assert(x@.subrange(0, i as int) == x@);
        assert(y@.subrange(0, i as int) == y@);
        assert(x@ == encode_utf8(a@));
        assert(y@ == encode_utf8(b@));
    }
    diff == 0
}

} // verus!
