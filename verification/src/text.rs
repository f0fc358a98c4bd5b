//! Numbers written as text and read back: decimal identifiers and powers,
//! and the hexadecimal public key.

use vstd::prelude::*;
use vstd::string::{StringExecFns, StringSliceAdditionalSpecFns};

verus! {

/// The character of a decimal digit.
pub open spec fn digit_char(d: int) -> char {
    if d == 0 {
        '0'
    } else if d == 1 {
        '1'
    } else if d == 2 {
        '2'
    } else if d == 3 {
        '3'
    } else if d == 4 {
        '4'
    } else if d == 5 {
        '5'
    } else if d == 6 {
        '6'
    } else if d == 7 {
        '7'
    } else if d == 8 {
        '8'
    } else {
        '9'
    }
}

/// A natural number in decimal, without leading zeros.
pub open spec fn decimal(n: nat) -> Seq<char>
    decreases n,
{
    if n < 10 {
        seq![digit_char(n as int)]
    } else {
        decimal(n / 10).push(digit_char((n % 10) as int))
    }
}

/// An integer in decimal, with a minus sign in front if it is negative.
pub open spec fn signed_decimal(i: int) -> Seq<char> {
    if i < 0 {
        seq!['-'] + decimal((-i) as nat)
    } else {
        decimal(i as nat)
    }
}

fn digit_str(d: u64) -> (s: &'static str)
    requires
        d < 10,
    ensures
        s@ == seq![digit_char(d as int)],
{
    proof {
        reveal_strlit("0");
        reveal_strlit("1");
        reveal_strlit("2");
        reveal_strlit("3");
        reveal_strlit("4");
        reveal_strlit("5");
        reveal_strlit("6");
        reveal_strlit("7");
        reveal_strlit("8");
        reveal_strlit("9");
    }
    let s = if d == 0 {
        "0"
    } else if d == 1 {
        "1"
    } else if d == 2 {
        "2"
    } else if d == 3 {
        "3"
    } else if d == 4 {
        "4"
    } else if d == 5 {
        "5"
    } else if d == 6 {
        "6"
    } else if d == 7 {
        "7"
    } else if d == 8 {
        "8"
    } else {
        "9"
    };
    assert(s@ =~= seq![digit_char(d as int)]);
    s
}

/// Writes a number in decimal.
pub fn u64_to_string(n: u64) -> (s: String)
    ensures
        s@ == decimal(n as nat),
{
    let mut s = String::from_str(digit_str(n % 10));
    let mut rest: u64 = n / 10;
    proof {
        if rest == 0 {
            assert(s@ =~= decimal(n as nat));
        } else {
            assert(decimal(n as nat) =~= decimal(rest as nat) + s@);
        }
    }
    while rest > 0
        invariant
            rest == 0 ==> s@ == decimal(n as nat),
            rest > 0 ==> decimal(n as nat) == decimal(rest as nat) + s@,
        decreases rest,
    {
        let ghost before = s@;
        let ghost old_rest = rest;
        s = String::from_str(digit_str(rest % 10)).concat(s.as_str());
        rest = rest / 10;
        proof {
            let d = seq![digit_char((old_rest % 10) as int)];
            assert(s@ == d + before);
            if rest == 0 {
                assert(decimal(old_rest as nat) =~= d);
            } else {
                assert(decimal(old_rest as nat) =~= decimal(rest as nat) + d);
                assert(decimal(rest as nat) + d + before =~= decimal(rest as nat) + (d + before));
            }
        }
    }
    s
}

/// Writes a signed number in decimal.
pub fn i32_to_string(i: i32) -> (s: String)
    ensures
        s@ == signed_decimal(i as int),
{
    if i < 0 {
        proof {
            reveal_strlit("-");
        }
        let magnitude: u64 = (-(i as i64)) as u64;
        let digits = u64_to_string(magnitude);
        let s = String::from_str("-").concat(digits.as_str());
        assert("-"@ =~= seq!['-']);
        s
    } else {
        u64_to_string(i as u64)
    }
}

/// Whether two texts hold the same characters.
pub fn same_text(a: &str, b: &str) -> (same: bool)
    ensures
        same == (a@ == b@),
{
    let x = a.as_bytes();
    let y = b.as_bytes();
    proof {
        vstd::utf8::encode_utf8_decode_utf8(a@);
        vstd::utf8::encode_utf8_decode_utf8(b@);
    }
    if x.len() != y.len() {
        return false;
    }
    let mut i: usize = 0;
    while i < x.len()
        invariant
            i <= x.len(),
            x.len() == y.len(),
            x@ == a.spec_bytes(),
            y@ == b.spec_bytes(),
            forall|j: int| 0 <= j < i ==> x@[j] == y@[j],
        decreases x.len() - i,
    {
        if x[i] != y[i] {
            return false;
        }
        i = i + 1;
    }
    assert(x@ =~= y@);
    true
}

/// Whether `part` occurs in `whole` as a run of consecutive characters.
pub open spec fn occurs_in(part: Seq<char>, whole: Seq<char>) -> bool {
    exists|from: int|
        0 <= from && from + part.len() <= whole.len() && #[trigger] whole.subrange(
            from,
            from + part.len(),
        ) == part
}

/// What stands between a prefix and a suffix occurs in the whole.
pub proof fn lemma_middle_occurs(before: Seq<char>, part: Seq<char>, after: Seq<char>)
    ensures
        occurs_in(part, before + part + after),
{
    let whole = before + part + after;
    let from = before.len() as int;
    assert(whole.subrange(from, from + part.len()) =~= part);
}

/// Whether a character is one of the ten decimal digits.
pub open spec fn is_digit(c: char) -> bool {
    '0' <= c <= '9'
}

/// The number that a decimal digit stands for.
pub open spec fn digit_value(c: char) -> int {
    c as int - '0' as int
}

/// Whether a text consists of decimal digits.
pub open spec fn all_digits(s: Seq<char>) -> bool {
    forall|i: int| 0 <= i < s.len() ==> is_digit(#[trigger] s[i])
}

/// The number that a sequence of decimal digits stands for.
pub open spec fn digits_value(s: Seq<char>) -> nat
    decreases s.len(),
{
    if s.len() == 0 {
        0
    } else {
        (digits_value(s.drop_last()) * 10 + digit_value(s.last())) as nat
    }
}

/// The number written in `s`: decimal digits, at least one, that may follow
/// a single `+`, and whose value fits in 64 bits. Anything else is no number.
pub open spec fn parsed_u64(s: Seq<char>) -> Option<u64> {
    let digits = if s.len() > 0 && s[0] == '+' {
        s.drop_first()
    } else {
        s
    };
    if digits.len() > 0 && all_digits(digits) && digits_value(digits) <= u64::MAX {
        Some(digits_value(digits) as u64)
    } else {
        None
    }
}

proof fn lemma_digits_value_grows(s: Seq<char>, k: int)
    requires
        all_digits(s),
        0 <= k <= s.len(),
    ensures
        digits_value(s.take(k)) <= digits_value(s),
    decreases s.len() - k,
{
    if k == s.len() {
        assert(s.take(k) =~= s);
    } else {
        lemma_digits_value_grows(s, k + 1);
        let longer = s.take(k + 1);
        assert(longer.drop_last() =~= s.take(k));
        assert(longer.last() == s[k]);
        assert(is_digit(s[k]));
    }
}

/// Reads a number written in decimal.
pub fn parse_u64(s: &str) -> (r: Option<u64>)
    ensures
        r == parsed_u64(s@),
{
    if !s.is_ascii() {
        proof {
            let digits = if s@.len() > 0 && s@[0] == '+' {
                s@.drop_first()
            } else {
                s@
            };
            if digits.len() > 0 && all_digits(digits) {
                let i = choose|i: int| 0 <= i < s@.len() && !(0 <= (#[trigger] s@[i]) as int <= 127);
                if digits.len() == s@.len() {
                    assert(is_digit(digits[i]));
                } else if i > 0 {
                    assert(is_digit(digits[i - 1]));
                }
            }
        }
        return None;
    }
    let n = s.as_bytes().len();
    proof {
        vstd::string::is_ascii_spec_bytes(s);
        assert(s.spec_bytes().len() == s@.len());
    }
    let start: usize = if n > 0 && s.get_ascii(0) == 43 {
        1
    } else {
        0
    };
    let ghost digits = if s@.len() > 0 && s@[0] == '+' {
        s@.drop_first()
    } else {
        s@
    };
    proof {
        assert('+' as u8 == 43);
        if n > 0 {
            assert('\0' <= s@[0] <= '\u{7f}');
            assert((s@[0] as u8 == 43) == (s@[0] == '+'));
        }
        assert(n == s@.len());
        if start == 1 {
            assert(s@[0] == '+');
            assert(digits == s@.drop_first());
            assert(s@.drop_first() =~= s@.subrange(1, n as int));
        } else {
            assert(digits == s@);
            assert(s@ =~= s@.subrange(0, n as int));
        }
    }
    if start == n {
        return None;
    }
    let mut value: u64 = 0;
    let mut i: usize = start;
    while i < n
        invariant
            start <= i <= n,
            n == s@.len(),
            s.is_ascii(),
            digits == s@.subrange(start as int, n as int),
            digits == if s@.len() > 0 && s@[0] == '+' {
                s@.drop_first()
            } else {
                s@
            },
            all_digits(digits.take(i - start)),
            value == digits_value(digits.take(i - start)),
        decreases n - i,
    {
        let b = s.get_ascii(i);
        let ghost c = s@[i as int];
        assert(c == digits[i - start]);
        if b < 48 || b > 57 {
            assert(!is_digit(digits[i - start]));
            return None;
        }
        let ghost longer = digits.take(i - start + 1);
        proof {
            assert(longer.drop_last() =~= digits.take(i - start));
            assert(longer.last() == c);
            assert(is_digit(c));
            assert(digit_value(c) == b - 48);
            assert forall|j: int| 0 <= j < longer.len() implies is_digit(#[trigger] longer[j]) by {
                if j < i - start {
                    assert(longer[j] == digits.take(i - start)[j]);
                }
            }
        }
        let next = match value.checked_mul(10) {
            Some(tens) => tens.checked_add((b - 48) as u64),
            None => None,
        };
        match next {
            Some(v) => {
                value = v;
            },
            None => {
                proof {
                    assert(digits_value(longer) > u64::MAX);
                    if all_digits(digits) {
                        lemma_digits_value_grows(digits, i - start + 1);
                    }
                }
                return None;
            },
        }
        i = i + 1;
    }
    proof {
        assert(digits.take(n - start) =~= digits);
    }
    Some(value)
}

/// The number that a hexadecimal digit stands for, in either case.
pub open spec fn hex_value(c: char) -> Option<int> {
    if '0' <= c <= '9' {
        Some(c as int - '0' as int)
    } else if 'a' <= c <= 'f' {
        Some(c as int - 'a' as int + 10)
    } else if 'A' <= c <= 'F' {
        Some(c as int - 'A' as int + 10)
    } else {
        None
    }
}

/// The byte that two characters write: two hexadecimal digits, or a plus
/// sign and one hexadecimal digit.
pub open spec fn pair_value(high: char, low: char) -> Option<int> {
    if high == '+' {
        hex_value(low)
    } else {
        match (hex_value(high), hex_value(low)) {
            (Some(h), Some(l)) => Some(h * 16 + l),
            _ => None,
        }
    }
}

/// The bytes written in `s`, two characters each, read as the platform's
/// library reads a key. A text of odd length, or with a pair in it that
/// writes no byte, writes no bytes.
pub open spec fn hex_bytes(s: Seq<char>) -> Option<Seq<u8>> {
    if s.len() % 2 == 0 && (forall|i: int|
        0 <= i < s.len() / 2 ==> (#[trigger] pair_value(s[2 * i], s[2 * i + 1])) is Some) {
        Some(Seq::new(s.len() / 2, |i: int| pair_value(s[2 * i], s[2 * i + 1])->0 as u8))
    } else {
        None
    }
}

fn hex_digit(b: u8) -> (value: Option<u8>)
    ensures
        b < 128 ==> match hex_value(b as char) {
            Some(v) => value == Some(v as u8) && v < 16,
            None => value is None,
        },
{
    if 48 <= b && b <= 57 {
        Some(b - 48)
    } else if 97 <= b && b <= 102 {
        Some(b - 97 + 10)
    } else if 65 <= b && b <= 70 {
        Some(b - 65 + 10)
    } else {
        None
    }
}

fn hex_pair(high: u8, low: u8) -> (value: Option<u8>)
    requires
        high < 128,
        low < 128,
    ensures
        match pair_value(high as char, low as char) {
            Some(v) => value == Some(v as u8) && 0 <= v < 256,
            None => value is None,
        },
{
    assert('+' as u8 == 43);
    if high == 43 {
        hex_digit(low)
    } else {
        match (hex_digit(high), hex_digit(low)) {
            (Some(h), Some(l)) => Some(h * 16 + l),
            _ => None,
        }
    }
}

/// Reads bytes written in hexadecimal.
pub fn parse_hex(s: &str) -> (r: Option<Vec<u8>>)
    ensures
        match r {
            Some(bytes) => hex_bytes(s@) == Some(bytes@),
            None => hex_bytes(s@) is None,
        },
{
    if !s.is_ascii() {
        proof {
            let i = choose|i: int| 0 <= i < s@.len() && !('\0' <= (#[trigger] s@[i]) <= '\u{7f}');
            let k = i / 2;
            if s@.len() % 2 == 0 {
                assert(0 <= k < s@.len() / 2);
                assert(i == 2 * k || i == 2 * k + 1);
                assert(hex_value(s@[i]) is None && s@[i] != '+');
                assert(pair_value(s@[2 * k], s@[2 * k + 1]) is None);
            }
        }
        return None;
    }
    let n = s.as_bytes().len();
    proof {
        vstd::string::is_ascii_spec_bytes(s);
        assert(s.spec_bytes().len() == s@.len());
    }
    if n % 2 != 0 {
        return None;
    }
    let mut bytes: Vec<u8> = Vec::new();
    let mut i: usize = 0;
    while i < n
        invariant
            i <= n,
            i % 2 == 0,
            n % 2 == 0,
            n == s@.len(),
            s.is_ascii(),
            bytes@.len() == i / 2,
            forall|k: int|
                0 <= k < i / 2 ==> (#[trigger] pair_value(s@[2 * k], s@[2 * k + 1])) is Some,
            forall|k: int|
                0 <= k < i / 2 ==> #[trigger] bytes@[k] == pair_value(s@[2 * k], s@[2 * k + 1])->0 as u8,
        decreases n - i,
    {
        let high = s.get_ascii(i);
        let low = s.get_ascii(i + 1);
        let ghost k = i as int / 2;
        proof {
            assert('\0' <= s@[i as int] <= '\u{7f}');
            assert('\0' <= s@[i + 1] <= '\u{7f}');
            assert(high as char == s@[i as int]);
            assert(low as char == s@[i + 1]);
            assert(i == 2 * k);
        }
        match hex_pair(high, low) {
            Some(byte) => {
                bytes.push(byte);
            },
            None => {
                assert(pair_value(s@[2 * k], s@[2 * k + 1]) is None);
                return None;
            },
        }
        i = i + 2;
    }
    proof {
        assert(bytes@ =~= hex_bytes(s@)->0);
    }
    Some(bytes)
}

/// Reading back a number that was written in decimal gives that number.
pub proof fn law_decimal_round_trip(n: u64)
    ensures
        parsed_u64(decimal(n as nat)) == Some(n),
{
    lemma_decimal_digits(n as nat);
}

proof fn lemma_decimal_digits(n: nat)
    ensures
        decimal(n).len() > 0,
        all_digits(decimal(n)),
        digits_value(decimal(n)) == n,
    decreases n,
{
    if n < 10 {
        let s = decimal(n);
        assert(s.drop_last() =~= Seq::<char>::empty());
        assert(digits_value(s.drop_last()) == 0);
    } else {
        lemma_decimal_digits(n / 10);
        let s = decimal(n);
        assert(s.drop_last() =~= decimal(n / 10));
        assert(s.last() == digit_char((n % 10) as int));
        assert forall|j: int| 0 <= j < s.len() implies is_digit(#[trigger] s[j]) by {
            if j < s.len() - 1 {
                assert(s[j] == decimal(n / 10)[j]);
            }
        }
    }
}

} // verus!
