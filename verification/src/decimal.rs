//! Decimal numbers as text.

use vstd::prelude::*;

use crate::text::chars_of;

verus! {

/// The ten digits.
pub open spec fn is_digit(c: char) -> bool {
    '0' <= c <= '9'
}

/// The value of a digit.
pub open spec fn digit_value(c: char) -> nat {
    (c as u32 - '0' as u32) as nat
}

/// The digit with a value below ten.
pub open spec fn digit_char(value: nat) -> char {
    ('0' as u32 + value) as char
}

/// The shortest decimal text of a number.
pub open spec fn decimal_text(n: nat) -> Seq<char>
    decreases n,
{
    if n < 10 {
        seq![digit_char(n)]
    } else {
        decimal_text(n / 10).push(digit_char(n % 10))
    }
}

/// Every character is a digit.
pub open spec fn all_digits(s: Seq<char>) -> bool {
    forall|i: int| 0 <= i < s.len() ==> is_digit(#[trigger] s[i])
}

/// The number that a row of digits stands for.
pub open spec fn digits_value(s: Seq<char>) -> nat
    decreases s.len(),
{
    if s.len() == 0 {
        0
    } else {
        digits_value(s.drop_last()) * 10 + digit_value(s.last())
    }
}

/// The text without one plus sign at its start.
pub open spec fn unsigned_part(s: Seq<char>) -> Seq<char> {
    if s.len() > 0 && s[0] == '+' {
        s.skip(1)
    } else {
        s
    }
}

/// The number that a text stands for: digits, at least one, with an optional
/// plus sign in front, of a value of at most `max`.
pub open spec fn parsed(s: Seq<char>, max: nat) -> Option<nat> {
    let digits = unsigned_part(s);
    if digits.len() > 0 && all_digits(digits) && digits_value(digits) <= max {
        Some(digits_value(digits))
    } else {
        None
    }
}

/// The decimal text of a number.
pub fn decimal(n: u64) -> (r: String)
    ensures
        r@ == decimal_text(n as nat),
    decreases n,
{
    let digit: char = (48 + (n % 10) as u8) as char;
    assert(digit == digit_char((n % 10) as nat));
    let mut text: String = if n < 10 {
        String::new()
    } else {
        decimal(n / 10)
    };
    text.push(digit);
    assert(text@ =~= decimal_text(n as nat));
    text
}

/// Reads a decimal number of at most `max`.
pub fn parse_decimal(s: &str, max: u64) -> (r: Option<u64>)
    ensures
        match r {
            Some(n) => parsed(s@, max as nat) == Some(n as nat),
            None => parsed(s@, max as nat) is None,
        },
{
    let chars: Vec<char> = chars_of(s);
    let start: usize = if chars.len() > 0 && chars[0] == '+' {
        1
    } else {
        0
    };
    let ghost digits = unsigned_part(s@);
    assert(digits =~= chars@.skip(start as int));
    if start == chars.len() {
        return None;
    }
    let mut value: u64 = 0;
    let mut i: usize = start;
    assert(digits.take(0) =~= Seq::<char>::empty());
    while i < chars.len()
        invariant
            chars@ == s@,
            start <= i <= chars@.len(),
            digits == unsigned_part(s@),
            digits == chars@.skip(start as int),
            all_digits(digits.take(i - start)),
            value == digits_value(digits.take(i - start)),
            value <= max,
        decreases chars@.len() - i,
    {
        let c: char = chars[i];
        assert(digits[i - start] == c);
        if c < '0' || c > '9' {
            assert(!is_digit(digits[i - start]));
            return None;
        }
        let digit: u64 = c as u64 - 48;
        proof {
            assert(digits.take(i + 1 - start).drop_last() =~= digits.take(i - start));
            assert(digits.take(i + 1 - start) =~= digits.take(i - start).push(c));
        }
        let wide: u128 = value as u128 * 10 + digit as u128;
        if wide > max as u128 {
            proof {
                lemma_prefix_value(digits, i + 1 - start);
            }
            return None;
        }
        value = wide as u64;
        i += 1;
    }
    assert(digits.take(digits.len() as int) =~= digits);
    Some(value)
}

/// More digits never make a smaller number.
proof fn lemma_prefix_value(s: Seq<char>, n: int)
    requires
        0 <= n <= s.len(),
    ensures
        digits_value(s.take(n)) <= digits_value(s),
    decreases s.len() - n,
{
    if n == s.len() {
        assert(s.take(n) =~= s);
    } else {
        lemma_prefix_value(s, n + 1);
        assert(s.take(n + 1).drop_last() =~= s.take(n));
    }
}

/// The decimal text of a number is a row of digits with that value.
pub proof fn lemma_decimal_digits(n: nat)
    ensures
        decimal_text(n).len() > 0,
        all_digits(decimal_text(n)),
        digits_value(decimal_text(n)) == n,
    decreases n,
{
    let d: nat = n % 10;
    assert(is_digit(digit_char(d)));
    assert(digit_value(digit_char(d)) == d);
    if n >= 10 {
        lemma_decimal_digits(n / 10);
        let head = decimal_text(n / 10);
        assert(decimal_text(n) == head.push(digit_char(d)));
        assert(decimal_text(n).drop_last() =~= head);
    } else {
        assert(decimal_text(n).drop_last() =~= Seq::<char>::empty());
        assert(digits_value(Seq::<char>::empty()) == 0);
    }
}

/// Reading the decimal text of a number gives the number back.
pub proof fn law_decimal_round_trip(n: nat, max: nat)
    requires
        n <= max,
    ensures
        parsed(decimal_text(n), max) == Some(n),
{
    lemma_decimal_digits(n);
    assert(is_digit(decimal_text(n)[0]));
}

/// Different numbers have different decimal texts.
pub proof fn law_decimal_injective(a: nat, b: nat)
    requires
        decimal_text(a) == decimal_text(b),
    ensures
        a == b,
{
    lemma_decimal_digits(a);
    lemma_decimal_digits(b);
}

/// A further digit at the end of a text makes ten times the number, and the value
/// of the digit: the digits `0` to `9` are worth nought to nine.
pub proof fn law_last_digit_counts_once(s: Seq<char>, digit: char)
    requires
        '0' <= digit <= '9',
    ensures
        digits_value(Seq::empty()) == 0,
        digits_value(s.push(digit)) == 10 * digits_value(s) + (digit as int - 48),
{
    assert(s.push(digit).drop_last() =~= s);
}

/// A digit in front of a text counts for itself times as many tens as there are
/// characters behind it.
pub proof fn law_first_digit_counts_most(digit: char, s: Seq<char>)
    requires
        '0' <= digit <= '9',
    ensures
        digits_value(seq![digit] + s) == (digit as int - 48) * vstd::arithmetic::power::pow(
            10,
            s.len(),
        ) + digits_value(s),
    decreases s.len(),
{
    let d: int = digit as int - 48;
    if s.len() == 0 {
        vstd::arithmetic::power::lemma_pow0(10);
        assert(seq![digit] + s =~= Seq::<char>::empty().push(digit));
        law_last_digit_counts_once(Seq::empty(), digit);
        assert(s =~= Seq::empty());
        assert(d * 1 == d);
    } else {
        let head = s.drop_last();
        law_first_digit_counts_most(digit, head);
        assert((seq![digit] + s).drop_last() =~= seq![digit] + head);
        assert((seq![digit] + s).last() == s.last());
        let p: int = vstd::arithmetic::power::pow(10, head.len());
        reveal(vstd::arithmetic::power::pow);
        assert(vstd::arithmetic::power::pow(10, s.len()) == 10 * p);
        assert((d * p + digits_value(head)) * 10 == d * (10 * p) + digits_value(head) * 10)
            by (nonlinear_arith);
    }
}

/// The decimal text of a number below ten is its digit; that of a larger number
/// is the text of its tenth part, with the digit that is left behind it.
pub proof fn law_decimal_text_by_digits(n: nat, d: nat)
    requires
        d < 10,
    ensures
        decimal_text(d).len() == 1,
        decimal_text(d)[0] as int == 48 + d,
        n > 0 ==> decimal_text(10 * n + d) == decimal_text(n) + decimal_text(d),
{
    if n > 0 {
        let m: nat = 10 * n + d;
        assert(m / 10 == n && m % 10 == d);
        assert(decimal_text(m) =~= decimal_text(n) + decimal_text(d));
    }
}

/// The decimal text of a number has no sign and no leading zero, and no other
/// characters than digits.
pub proof fn law_decimal_text_is_shortest(n: nat, i: int)
    requires
        0 <= i < decimal_text(n).len(),
    ensures
        '0' <= decimal_text(n)[i] <= '9',
        decimal_text(n).len() > 1 ==> decimal_text(n)[0] != '0',
    decreases n,
{
    lemma_decimal_digits(n);
    assert(is_digit(decimal_text(n)[i]));
    if n >= 10 {
        lemma_decimal_digits(n / 10);
        law_decimal_text_is_shortest(n / 10, 0);
        assert(decimal_text(n)[0] == decimal_text(n / 10)[0]);
        if n / 10 < 10 {
            assert(digit_char(n / 10) as int == 48 + n / 10);
        } else {
            lemma_decimal_digits(n / 10 / 10);
        }
    }
}

/// A row of digits is read as its value, up to the limit, with or without one plus
/// sign in front.
pub proof fn law_digits_are_read(s: Seq<char>, max: nat)
    requires
        s.len() > 0,
        forall|i: int| 0 <= i < s.len() ==> '0' <= #[trigger] s[i] <= '9',
    ensures
        digits_value(s) <= max ==> parsed(s, max) == Some(digits_value(s)),
        digits_value(s) > max ==> parsed(s, max) is None,
        parsed(seq!['+'] + s, max) == parsed(s, max),
{
    assert(s[0] != '+');
    assert((seq!['+'] + s).skip(1) =~= s);
    assert(all_digits(s));
}

/// Nothing else is read: no empty text, no sign alone, and no text with a
/// character in it that is neither a digit nor a plus sign in front.
pub proof fn law_only_digits_are_read(s: Seq<char>, i: int, max: nat)
    requires
        0 <= i < s.len(),
        !('0' <= s[i] <= '9'),
        i == 0 ==> s[i] != '+',
    ensures
        parsed(s, max) is None,
        parsed(Seq::empty(), max) is None,
        parsed(seq!['+'], max) is None,
{
    let digits = unsigned_part(s);
    if s[0] == '+' {
        assert(digits[i - 1] == s[i]);
        assert(!is_digit(digits[i - 1]));
    } else {
        assert(!is_digit(digits[i]));
    }
    assert(seq!['+'].skip(1) =~= Seq::<char>::empty());
}

} // verus!
