//! Decimal numbers: writing them out and reading them back.

use vstd::prelude::*;

use crate::text::{chars_of, Text};

verus! {

/// The decimal digit of a value below ten.
pub open spec fn digit_char(d: nat) -> char {
    (d + 48) as char
}

/// Whether a character is an ASCII digit.
pub open spec fn is_digit(c: char) -> bool {
    48 <= c as u32 <= 57
}

/// The value of a decimal digit.
pub open spec fn digit_value(c: char) -> nat {
    (c as u32 - 48) as nat
}

/// A number in decimal, without leading zeros.
pub open spec fn decimal_text(n: nat) -> Text
    decreases n,
{
    if n < 10 {
        seq![digit_char(n)]
    } else {
        decimal_text(n / 10).push(digit_char(n % 10))
    }
}

fn digit_of(d: u64) -> (c: char)
    requires
        d < 10,
    ensures
        c == digit_char(d as nat),
{
    if d == 0 {
        '0'
    } else if d == 1 {
        '1'
    } else if d == 2 {
        '2'
    } else if d == 3 {
        '3'
    } else if d == 4 {
        '4'
    } else if d == 5 {
        '5'
    } else if d == 6 {
        '6'
    } else if d == 7 {
        '7'
    } else if d == 8 {
        '8'
    } else {
        '9'
    }
}

/// Writes a number in decimal.
pub fn decimal(n: u64) -> (r: String)
    ensures
        r@ == decimal_text(n as nat),
    decreases n,
{
    if n < 10 {
        let mut s = String::new();
        s.push(digit_of(n));
        proof {
            assert(s@ =~= decimal_text(n as nat));
        }
        s
    } else {
        let mut s = decimal(n / 10);
        s.push(digit_of(n % 10));
        s
    }
}

/// Writes a count in decimal.
pub fn decimal_len(n: usize) -> (r: String)
    ensures
        r@ == decimal_text(n as nat),
{
    decimal(n as u64)
}

/// The value of a run of decimal digits.
pub open spec fn digits_value(s: Text) -> nat
    decreases s.len(),
{
    if s.len() == 0 {
        0
    } else {
        digits_value(s.drop_last()) * 10 + digit_value(s.last())
    }
}

/// Whether a text has digits only.
pub open spec fn all_digits(s: Text) -> bool {
    forall|i: int| 0 <= i < s.len() ==> is_digit(#[trigger] s[i])
}

/// A text without one leading plus sign.
pub open spec fn unsigned_part(s: Text) -> Text {
    if s.len() > 0 && s[0] == '+' {
        s.skip(1)
    } else {
        s
    }
}

/// The unsigned number that a text spells: digits, after an optional plus sign.
/// A text that spells none, or one above `max`, has no value.
pub open spec fn number_value(s: Text, max: nat) -> Option<nat> {
    let digits = unsigned_part(s);
    if digits.len() > 0 && all_digits(digits) && digits_value(digits) <= max {
        Some(digits_value(digits))
    } else {
        None
    }
}

/// A longer run of digits has a value at least as large.
proof fn digits_value_grows(s: Text, n: int)
    requires
        0 <= n <= s.len(),
    ensures
        digits_value(s.take(n)) <= digits_value(s),
    decreases s.len() - n,
{
    if n == s.len() {
        assert(s.take(n) =~= s);
    } else {
        digits_value_grows(s, n + 1);
        assert(s.take(n + 1).drop_last() =~= s.take(n));
    }
}

/// Reads an unsigned number of at most `max`.
pub fn parse_number(s: &str, max: u64) -> (r: Option<u64>)
    ensures
        match r {
            Some(n) => number_value(s@, max as nat) == Some(n as nat),
            None => number_value(s@, max as nat) is None,
        },
{
    let cs = chars_of(s);
    let start: usize = if cs.len() > 0 && cs[0] == '+' {
        1
    } else {
        0
    };
    let ghost digits = unsigned_part(s@);
    proof {
        assert(digits =~= cs@.skip(start as int));
    }
    if start == cs.len() {
        return None;
    }
    let mut value: u64 = 0;
    let mut i: usize = start;
    proof {
        assert(digits.take(0) =~= Seq::empty());
    }
    while i < cs.len()
        invariant
            start <= i <= cs.len(),
            start <= 1,
            cs@ == s@,
            digits == unsigned_part(s@),
            digits =~= cs@.skip(start as int),
            digits.len() > 0,
            value == digits_value(digits.take(i - start)),
            value <= max,
            forall|j: int| 0 <= j < i - start ==> is_digit(#[trigger] digits[j]),
        decreases cs.len() - i,
    {
        let c = cs[i];
        let code: u32 = c as u32;
        proof {
            assert(digits[i - start] == c);
            assert(digits.take(i - start + 1).drop_last() =~= digits.take(i - start));
            digits_value_grows(digits, i - start + 1);
        }
        if !(48 <= code && code <= 57) {
            return None;
        }
        let d: u64 = (code - 48) as u64;
        let ghost next = digits_value(digits.take(i - start + 1));
        proof {
            assert(next == value * 10 + d);
        }
        if value > max / 10 {
            proof {
                assert(value >= max / 10 + 1);
                assert(max < (max / 10 + 1) * 10);
            }
            return None;
        }
        let tens: u64 = value * 10;
        if d > max - tens {
            return None;
        }
        value = tens + d;
        i = i + 1;
    }
    proof {
        assert(digits.take(digits.len() as int) =~= digits);
    }
    Some(value)
}

/// Reads a `u64`.
pub fn parse_u64(s: &str) -> (r: Option<u64>)
    ensures
        match r {
            Some(n) => number_value(s@, u64::MAX as nat) == Some(n as nat),
            None => number_value(s@, u64::MAX as nat) is None,
        },
{
    parse_number(s, u64::MAX)
}

/// What `u32`'s `FromStr` says of a text that spells no `u32`; `None` for one that
/// does.
pub uninterp spec fn u32_error(text: Seq<char>) -> Option<Seq<char>>;

/// `u32`'s `FromStr`, its error written out. It succeeds exactly on digits after an
/// optional plus sign that spell a number in range. What the error says depends on
/// the text alone.
#[verifier::external_body]
pub(crate) fn read_u32(s: &str) -> (r: Result<u32, String>)
    ensures
        match r {
            Ok(n) => number_value(s@, u32::MAX as nat) == Some(n as nat),
            Err(e) => number_value(s@, u32::MAX as nat) is None && u32_error(s@) == Some(e@),
        },
{
    s.parse::<u32>().map_err(|e| e.to_string())
}

/// Reads a `u16`.
pub fn parse_u16(s: &str) -> (r: Option<u16>)
    ensures
        match r {
            Some(n) => number_value(s@, u16::MAX as nat) == Some(n as nat),
            None => number_value(s@, u16::MAX as nat) is None,
        },
{
    match parse_number(s, u16::MAX as u64) {
        Some(n) => Some(n as u16),
        None => None,
    }
}

/// Reads a `u8`.
pub fn parse_u8(s: &str) -> (r: Option<u8>)
    ensures
        match r {
            Some(n) => number_value(s@, u8::MAX as nat) == Some(n as nat),
            None => number_value(s@, u8::MAX as nat) is None,
        },
{
    match parse_number(s, u8::MAX as u64) {
        Some(n) => Some(n as u8),
        None => None,
    }
}

/// A written number consists of digits and reads back as itself.
pub proof fn decimal_reads_back(n: nat)
    ensures
        decimal_text(n).len() > 0,
        all_digits(decimal_text(n)),
        digits_value(decimal_text(n)) == n,
    decreases n,
{
    reveal_with_fuel(digits_value, 2);
    if n < 10 {
        let s = decimal_text(n);
        assert(s.drop_last() =~= Seq::empty());
        assert(s.last() == digit_char(n));
    } else {
        decimal_reads_back(n / 10);
        let s = decimal_text(n);
        assert(s.drop_last() =~= decimal_text(n / 10));
        assert(s.last() == digit_char(n % 10));
        assert forall|i: int| 0 <= i < s.len() implies is_digit(#[trigger] s[i]) by {
            if i < s.len() - 1 {
                assert(s[i] == decimal_text(n / 10)[i]);
            }
        }
    }
}

/// Reading what was written gives the number back, and different numbers are
/// written differently.
pub proof fn decimal_is_injective(a: nat, b: nat)
    ensures
        decimal_text(a) == decimal_text(b) ==> a == b,
{
    decimal_reads_back(a);
    decimal_reads_back(b);
}

/// A number that fits is read back from its decimal text.
pub proof fn decimal_round_trip(n: nat, max: nat)
    requires
        n <= max,
    ensures
        number_value(decimal_text(n), max) == Some(n),
{
    decimal_reads_back(n);
    assert(decimal_text(n)[0] != '+');
}

/// A number below ten is written as its digit; any other as what is left of it without
/// its last digit, with that digit behind.
pub proof fn decimals_are_digits(a: nat, d: nat)
    requires
        d < 10,
    ensures
        decimal_text(d) == seq![digit_char(d)],
        a > 0 ==> decimal_text(10 * a + d) == decimal_text(a).push(digit_char(d)),
        digit_char(0) == '0' && digit_char(1) == '1' && digit_char(2) == '2' && digit_char(3)
            == '3' && digit_char(4) == '4' && digit_char(5) == '5' && digit_char(6) == '6'
            && digit_char(7) == '7' && digit_char(8) == '8' && digit_char(9) == '9',
{
    if a > 0 {
        assert((10 * a + d) / 10 == a && (10 * a + d) % 10 == d) by (nonlinear_arith)
            requires
                d < 10,
        ;
    }
}

/// A text is a number exactly when it is digits, with a plus in front or without, of a
/// value within the limit; and then it is that value, leading zeros or not.
pub proof fn numbers_are_read(s: Text, max: nat)
    ensures
        number_value(Seq::empty(), max) is None,
        number_value("+"@, max) is None,
        (exists|i: int| 0 < i < s.len() && !(48 <= (#[trigger] s[i]) as u32 <= 57)) ==> number_value(
            s,
            max,
        ) is None,
        s.len() > 0 && s[0] != '+' && !(48 <= s[0] as u32 <= 57) ==> number_value(s, max) is None,
        s.len() > 0 && s[0] != '+' ==> number_value("+"@ + s, max) == number_value(s, max),
        s.len() > 0 && s[0] != '+' ==> number_value("0"@ + s, max) == number_value(s, max),
        number_value(s, max) is Some ==> number_value(s, max)->0 <= max,
{
    reveal_strlit("+");
    reveal_strlit("0");
    assert("+"@.skip(1) =~= Seq::<char>::empty());
    let digits = unsigned_part(s);
    if exists|i: int| 0 < i < s.len() && !(48 <= (#[trigger] s[i]) as u32 <= 57) {
        let i = choose|i: int| 0 < i < s.len() && !(48 <= (#[trigger] s[i]) as u32 <= 57);
        if s[0] == '+' {
            assert(!is_digit(digits[i - 1]));
        } else {
            assert(!is_digit(digits[i]));
        }
    }
    if s.len() > 0 && s[0] != '+' && !(48 <= s[0] as u32 <= 57) {
        assert(!is_digit(digits[0]));
    }
    if s.len() > 0 && s[0] != '+' {
        assert(("+"@ + s).skip(1) =~= s);
        let z = "0"@ + s;
        zero_in_front(s);
        assert(z =~= seq!['0'] + s);
        if all_digits(z) {
            assert forall|i: int| 0 <= i < s.len() implies is_digit(#[trigger] s[i]) by {
                assert(z[i + 1] == s[i]);
            }
        }
        if all_digits(s) {
            assert forall|i: int| 0 <= i < z.len() implies is_digit(#[trigger] z[i]) by {
                if i > 0 {
                    assert(z[i] == s[i - 1]);
                }
            }
        }
    }
}

proof fn zero_in_front(s: Text)
    ensures
        digits_value(seq!['0'] + s) == digits_value(s),
    decreases s.len(),
{
    reveal_with_fuel(digits_value, 2);
    let z = seq!['0'] + s;
    if s.len() == 0 {
        assert(z.drop_last() =~= Seq::<char>::empty());
        assert(z.last() == '0');
    } else {
        assert(z.drop_last() =~= seq!['0'] + s.drop_last());
        assert(z.last() == s.last());
        zero_in_front(s.drop_last());
    }
}

/// The value of digits with one more behind them is ten times theirs and that digit.
pub proof fn digits_weigh_ten(s: Text, d: nat)
    requires
        d < 10,
    ensures
        digits_value(Seq::empty()) == 0,
        digits_value(s.push(digit_char(d))) == 10 * digits_value(s) + d,
        digit_value(digit_char(d)) == d,
{
    assert(s.push(digit_char(d)).drop_last() =~= s);
}

} // verus!
