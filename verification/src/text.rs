//! Small text utilities shared by the header parsers: equality of string
//! slices and signed decimal numbers.

use vstd::prelude::*;
use vstd::utf8::*;

verus! {

/// Two character sequences are equal exactly when their UTF-8 encodings are.
pub proof fn lemma_encoding_is_injective(a: Seq<char>, b: Seq<char>)
    ensures
        (encode_utf8(a) == encode_utf8(b)) <==> (a == b),
{
    encode_utf8_decode_utf8(a);
    encode_utf8_decode_utf8(b);
}

/// Whether two string slices hold the same text.
pub fn str_eq(a: &str, b: &str) -> (same: bool)
    ensures
        same == (a@ == b@),
{
    let x = a.as_bytes();
    let y = b.as_bytes();
    proof {
        lemma_encoding_is_injective(a@, b@);
    }
    if x.len() != y.len() {
        return false;
    }
    let mut i: usize = 0;
    while i < x.len()
        invariant
            x@.len() == y@.len(),
            0 <= i <= x@.len(),
            x@.subrange(0, i as int) == y@.subrange(0, i as int),
            (x@ == y@) <==> (a@ == b@),
        decreases x@.len() - i,
    {
        if x[i] != y[i] {
            assert(x@[i as int] != y@[i as int]);
            return false;
        }
        assert(x@.subrange(0, i + 1) == x@.subrange(0, i as int).push(x@[i as int]));
        assert(y@.subrange(0, i + 1) == y@.subrange(0, i as int).push(y@[i as int]));
        i += 1;
    }
    assert(x@ == x@.subrange(0, x@.len() as int));
    assert(y@ == y@.subrange(0, y@.len() as int));
    true
}

/// Whether `c` is one of the ten decimal digits.
pub open spec fn is_digit(c: char) -> bool {
    '0' <= c <= '9'
}

/// Whether every character of `s` is a decimal digit.
pub open spec fn all_digits(s: Seq<char>) -> bool {
    forall|i: int| 0 <= i < s.len() ==> is_digit(#[trigger] s[i])
}

/// The number that a sequence of decimal digits denotes, most significant
/// digit first.
pub open spec fn decimal_value(digits: Seq<char>) -> nat
    decreases digits.len(),
{
    if digits.len() == 0 {
        0
    } else {
        (decimal_value(digits.drop_last()) * 10 + (digits.last() as u32 - '0' as u32)) as nat
    }
}

/// The digits of a signed decimal: the text without its optional sign.
pub open spec fn decimal_digits(s: Seq<char>) -> Seq<char> {
    if s.len() > 0 && (s[0] == '-' || s[0] == '+') {
        s.skip(1)
    } else {
        s
    }
}

/// The 64-bit signed integer that `s` denotes in decimal: an optional `+` or
/// `-`, then one or more digits, and nothing else. `None` where `s` has
/// another shape or the number does not fit.
pub open spec fn decimal_i64(s: Seq<char>) -> Option<i64> {
    let digits = decimal_digits(s);
    let negative = s.len() > 0 && s[0] == '-';
    let magnitude = decimal_value(digits) as int;
    let number = if negative {
        -magnitude
    } else {
        magnitude
    };
    if digits.len() == 0 || !all_digits(digits) {
        None
    } else if i64::MIN <= number <= i64::MAX {
        Some(number as i64)
    } else {
        None
    }
}

/// A prefix of a digit sequence never denotes more than the whole.
pub proof fn lemma_decimal_prefix_le(digits: Seq<char>, n: int)
    requires
        all_digits(digits),
        0 <= n <= digits.len(),
    ensures
        decimal_value(digits.take(n)) <= decimal_value(digits),
    decreases digits.len() - n,
{
    if n == digits.len() {
        assert(digits.take(n) == digits);
    } else {
        lemma_decimal_prefix_le(digits, n + 1);
        let longer = digits.take(n + 1);
        assert(longer.drop_last() == digits.take(n));
        assert(is_digit(longer.last()));
    }
}

/// Reads a signed decimal number of at most 64 bits.
pub fn parse_i64(s: &str) -> (number: Option<i64>)
    ensures
        number == decimal_i64(s@),
{
    if !s.is_ascii() {
        proof {
            if decimal_i64(s@) is Some {
                let digits = decimal_digits(s@);
                assert forall|i: int| 0 <= i < s@.len() implies '\0' <= #[trigger] s@[i]
                    <= '\u{7f}' by {
                    if digits.len() == s@.len() {
                        assert(is_digit(digits[i]));
                    } else if i > 0 {
                        assert(is_digit(digits[i - 1]));
                    }
                }
            }
        }
        return None;
    }
    let n = s.unicode_len();
    if n == 0 {
        return None;
    }
    let first = s.get_ascii(0);
    let negative = first == 45u8;
    let start: usize = if first == 45u8 || first == 43u8 {
        1
    } else {
        0
    };
    if start == n {
        return None;
    }
    let ghost digits = decimal_digits(s@);
    assert(digits == s@.skip(start as int));
    let limit: u64 = if negative {
        9223372036854775808u64
    } else {
        9223372036854775807u64
    };
    let mut acc: u64 = 0;
    let mut i: usize = start;
    while i < n
        invariant
            s.is_ascii(),
            n == s@.len(),
            start <= i <= n,
            digits == s@.skip(start as int),
            digits == decimal_digits(s@),
            negative == (s@[0] == '-'),
            all_digits(digits.take(i - start)),
            acc == decimal_value(digits.take(i - start)),
            acc <= limit,
            limit == if negative {
                9223372036854775808u64
            } else {
                9223372036854775807u64
            },
        decreases n - i,
    {
        let b = s.get_ascii(i);
        let ghost c = s@[i as int];
        assert(digits[i - start] == c);
        if b < 48u8 || b > 57u8 {
            assert(!is_digit(c));
            return None;
        }
        assert(is_digit(c));
        let d: u64 = (b - 48u8) as u64;
        let ghost longer = digits.take(i - start + 1);
        assert(longer.drop_last() == digits.take(i - start));
        assert(longer.last() == c);
        assert(decimal_value(longer) == acc * 10 + d);
        assert(all_digits(longer)) by {
            assert forall|k: int| 0 <= k < longer.len() implies is_digit(#[trigger] longer[k]) by {
                if k < i - start {
                    assert(longer[k] == digits.take(i - start)[k]);
                }
            }
        }
        if acc > (limit - d) / 10 {
            proof {
                assert(acc * 10 + d > limit);
                if all_digits(digits) {
                    lemma_decimal_prefix_le(digits, i - start + 1);
                }
            }
            return None;
        }
        acc = acc * 10 + d;
        i += 1;
    }
    assert(digits.take(n - start) == digits);
    if negative {
        if acc == 9223372036854775808u64 {
            Some(i64::MIN)
        } else {
            Some(-(acc as i64))
        }
    } else {
        Some(acc as i64)
    }
}

/// The character of the decimal digit `d`.
pub open spec fn digit_char(d: int) -> char {
    if d == 0 {
        '0'
    } else if d == 1 {
        '1'
    } else if d == 2 {
        '2'
    } else if d == 3 {
        '3'
    } else if d == 4 {
        '4'
    } else if d == 5 {
        '5'
    } else if d == 6 {
        '6'
    } else if d == 7 {
        '7'
    } else if d == 8 {
        '8'
    } else {
        '9'
    }
}

/// The decimal numeral of `n`, without leading zeros.
pub open spec fn decimal_text(n: nat) -> Seq<char>
    decreases n,
{
    if n < 10 {
        seq![digit_char(n as int)]
    } else {
        decimal_text(n / 10).push(digit_char((n % 10) as int))
    }
}

fn digit_text(d: u64) -> (text: &'static str)
    requires
        d < 10,
    ensures
        text@ == seq![digit_char(d as int)],
{
    proof {
        reveal_strlit("0");
        reveal_strlit("1");
        reveal_strlit("2");
        reveal_strlit("3");
        reveal_strlit("4");
        reveal_strlit("5");
        reveal_strlit("6");
        reveal_strlit("7");
        reveal_strlit("8");
        reveal_strlit("9");
    }
    let text = if d == 0 {
        "0"
    } else if d == 1 {
        "1"
    } else if d == 2 {
        "2"
    } else if d == 3 {
        "3"
    } else if d == 4 {
        "4"
    } else if d == 5 {
        "5"
    } else if d == 6 {
        "6"
    } else if d == 7 {
        "7"
    } else if d == 8 {
        "8"
    } else {
        "9"
    };
    assert(text@ =~= seq![digit_char(d as int)]);
    text
}

/// Writes a number in decimal.
pub fn to_decimal(n: u64) -> (text: String)
    ensures
        text@ == decimal_text(n as nat),
    decreases n,
{
    if n < 10 {
        digit_text(n).to_owned()
    } else {
        let text = to_decimal(n / 10).concat(digit_text(n % 10));
        assert(text@ =~= decimal_text((n / 10) as nat).push(digit_char((n % 10) as int)));
        text
    }
}

/// The text of an optional string.
pub open spec fn text_of(s: Option<String>) -> Option<Seq<char>> {
    match s {
        Some(s) => Some(s@),
        None => None,
    }
}

/// The text of an optional string slice.
pub open spec fn text_of_slice(s: Option<&str>) -> Option<Seq<char>> {
    match s {
        Some(s) => Some(s@),
        None => None,
    }
}

/// Reads bytes as UTF-8 text with `std::str::from_utf8`. Trusted: the text
/// comes out exactly where the bytes are valid UTF-8, and is what they
/// decode to.
#[verifier::external_body]
pub(crate) fn text_from_utf8(bytes: &[u8]) -> (text: Option<String>)
    ensures
        match text {
            Some(t) => valid_utf8(bytes@) && t@ == decode_utf8(bytes@),
            None => !valid_utf8(bytes@),
        },
{
    std::str::from_utf8(bytes).ok().map(str::to_owned)
}

} // verus!
