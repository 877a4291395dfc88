//! Numbers written as decimal text.

use vstd::prelude::*;
use vstd::string::*;
use crate::text::{cat2, chars_of, digit, ends, is_digit, step};

verus! {

/// The digit of a number below ten.
pub open spec fn digit_char(d: nat) -> char {
    (48 + d) as char
}

/// A natural number in decimal.
pub open spec fn decimal(n: nat) -> Seq<char>
    decreases n,
{
    if n < 10 {
        seq![digit_char(n)]
    } else {
        decimal(n / 10).push(digit_char(n % 10))
    }
}

/// An integer in decimal, with a minus sign where it is negative.
pub open spec fn signed_decimal(n: int) -> Seq<char> {
    if n < 0 {
        "-"@ + decimal((-n) as nat)
    } else {
        decimal(n as nat)
    }
}

/// A natural number in decimal.
pub fn decimal_text(n: u64) -> (r: String)
    ensures
        r@ == decimal(n as nat),
    decreases n,
{
    if n < 10 {
        let mut out = String::new();
        out.push((48 + n as u8) as char);
        proof {
            assert(out@ =~= seq![digit_char(n as nat)]);
        }
        out
    } else {
        let mut out = decimal_text(n / 10);
        out.push((48 + (n % 10) as u8) as char);
        out
    }
}

/// A count in decimal.
pub fn count_text(n: usize) -> (r: String)
    ensures
        r@ == decimal(n as nat),
{
    decimal_text(n as u64)
}

/// An integer in decimal, with a minus sign where it is negative.
pub fn signed_text(n: i64) -> (r: String)
    ensures
        r@ == signed_decimal(n as int),
{
    if n < 0 {
        let magnitude: u64 = if n == i64::MIN {
            9223372036854775808
        } else {
            (-n) as u64
        };
        cat2("-", &decimal_text(magnitude))
    } else {
        decimal_text(n as u64)
    }
}

/// `true` or `false`.
pub open spec fn bool_word(b: bool) -> Seq<char> {
    if b {
        "true"@
    } else {
        "false"@
    }
}

/// `true` or `false`.
pub fn bool_text(b: bool) -> (r: &'static str)
    ensures
        r@ == bool_word(b),
{
    if b {
        "true"
    } else {
        "false"
    }
}

/// The number that a run of decimal digits writes.
pub open spec fn digits_value(s: Seq<char>) -> nat
    decreases s.len(),
{
    if s.len() == 0 {
        0
    } else {
        digits_value(s.drop_last()) * 10 + ((s.last() as u32) - 48) as nat
    }
}

/// The digits of an unsigned number after an optional plus sign.
pub open spec fn unsigned_digits(s: Seq<char>) -> Seq<char> {
    if s.len() > 0 && s[0] == '+' {
        s.skip(1)
    } else {
        s
    }
}

/// The number of at most `max` that a text writes: an optional plus sign, then
/// one or more decimal digits and nothing else.
pub open spec fn parsed_unsigned(s: Seq<char>, max: nat) -> Option<nat> {
    let d = unsigned_digits(s);
    if d.len() > 0 && (forall|i: int| 0 <= i < d.len() ==> is_digit(#[trigger] d[i]))
        && digits_value(d) <= max {
        Some(digits_value(d))
    } else {
        None
    }
}

/// More digits never make a number smaller.
pub proof fn lemma_digits_value_grows(s: Seq<char>, i: int)
    requires
        0 <= i <= s.len(),
        forall|j: int| 0 <= j < s.len() ==> is_digit(#[trigger] s[j]),
    ensures
        digits_value(s.take(i)) <= digits_value(s),
    decreases s.len(),
{
    if i == s.len() {
        ends(s);
    } else {
        assert(s.drop_last().take(i) =~= s.take(i));
        assert forall|j: int| 0 <= j < s.drop_last().len() implies is_digit(
            #[trigger] s.drop_last()[j],
        ) by {
            assert(s.drop_last()[j] == s[j]);
        }
        lemma_digits_value_grows(s.drop_last(), i);
        assert(is_digit(s[s.len() - 1]));
    }
}

/// The number that a text writes, where it is at most `max`.
pub fn parse_unsigned(s: &str, max: u64) -> (r: Option<u64>)
    ensures
        match r {
            Some(n) => parsed_unsigned(s@, max as nat) == Some(n as nat),
            None => parsed_unsigned(s@, max as nat) is None,
        },
{
    let a = chars_of(s);
    let start: usize = if a.len() > 0 && a[0] == '+' {
        1
    } else {
        0
    };
    let ghost d = unsigned_digits(s@);
    proof {
        assert(d =~= a@.skip(start as int));
        ends(d);
    }
    if start == a.len() {
        return None;
    }
    let mut bad = false;
    let mut i: usize = start;
    while i < a.len()
        invariant
            start <= i <= a.len(),
            a@ == s@,
            d == a@.skip(start as int),
            !bad ==> forall|j: int| 0 <= j < i - start ==> is_digit(#[trigger] d[j]),
            bad ==> exists|j: int| 0 <= j < i - start && !is_digit(#[trigger] d[j]),
        decreases a@.len() - i,
    {
        assert(d[i - start] == a@[i as int]);
        if !digit(a[i]) {
            bad = true;
        }
        i = i + 1;
    }
    if bad {
        return None;
    }
    let mut value: u64 = 0;
    let mut k: usize = start;
    while k < a.len()
        invariant
            start <= k <= a.len(),
            a@ == s@,
            d == unsigned_digits(s@),
            d == a@.skip(start as int),
            forall|j: int| 0 <= j < d.len() ==> is_digit(#[trigger] d[j]),
            value == digits_value(d.take(k - start)),
            value <= max,
        decreases a@.len() - k,
    {
        assert(d[k - start] == a@[k as int]);
        assert(is_digit(d[k - start]));
        let unit: u64 = (a[k] as u32 - 48) as u64;
        proof {
            step(d, k - start);
            lemma_digits_value_grows(d, k + 1 - start);
        }
        if unit > max || value > (max - unit) / 10 {
            return None;
        }
        value = value * 10 + unit;
        k = k + 1;
    }
    proof {
        ends(d);
    }
    Some(value)
}

/// A number of two or more digits has the digits of its tenth before its last.
pub proof fn lemma_digits_of_decimal(n: nat)
    ensures
        decimal(n).len() > 0,
        digits_value(decimal(n)) == n,
        forall|j: int| 0 <= j < decimal(n).len() ==> is_digit(#[trigger] decimal(n)[j]),
    decreases n,
{
    if n < 10 {
        assert(decimal(n).drop_last() =~= Seq::<char>::empty());
        assert(digits_value(Seq::<char>::empty()) == 0);
    } else {
        lemma_digits_of_decimal(n / 10);
        assert(decimal(n).drop_last() =~= decimal(n / 10));
    }
}

/// A number written in decimal reads back as itself.
pub proof fn law_decimal_reads_back(n: nat, max: nat)
    requires
        n <= max,
    ensures
        parsed_unsigned(decimal(n), max) == Some(n),
{
    lemma_digits_of_decimal(n);
    assert(is_digit(decimal(n)[0]));
    assert(unsigned_digits(decimal(n)) == decimal(n));
}

/// Different numbers are written differently.
pub proof fn law_decimal_is_injective(a: nat, b: nat)
    requires
        decimal(a) == decimal(b),
    ensures
        a == b,
{
    lemma_digits_of_decimal(a);
    lemma_digits_of_decimal(b);
}

/// A number in decimal with leading zeros up to a width.
pub open spec fn padded(n: nat, width: nat) -> Seq<char> {
    let d = decimal(n);
    if d.len() >= width {
        d
    } else {
        Seq::new((width - d.len()) as nat, |i: int| '0') + d
    }
}

/// A number in decimal with leading zeros up to a width.
pub fn padded_text(n: usize, width: usize) -> (r: String)
    ensures
        r@ == padded(n as nat, width as nat),
{
    let digits = count_text(n);
    let length = digits.as_str().unicode_len();
    if length >= width {
        return digits;
    }
    let mut out = String::new();
    let mut i: usize = 0;
    while i < width - length
        invariant
            length < width,
            i <= width - length,
            out@.len() == i,
            forall|j: int| 0 <= j < i ==> out@[j] == '0',
        decreases width - length - i,
    {
        out.push('0');
        i = i + 1;
    }
    proof {
        assert(out@ =~= Seq::new((width - length) as nat, |i: int| '0'));
    }
    out.concat(&digits)
}

fn wide_text(n: u128) -> (r: String)
    ensures
        r@ == decimal(n as nat),
    decreases n,
{
    if n <= u64::MAX as u128 {
        decimal_text(n as u64)
    } else {
        let head = wide_text(n / 10);
        let last = decimal_text((n % 10) as u64);
        proof {
            reveal_with_fuel(decimal, 2);
        }
        cat2(&head, &last)
    }
}

/// The sum of two counts in decimal.
pub fn sum_text(a: usize, b: usize) -> (r: String)
    ensures
        r@ == decimal((a + b) as nat),
{
    wide_text(a as u128 + b as u128)
}

/// A number with a sign, in decimal.
pub fn wide_signed_text(n: i128) -> (r: String)
    ensures
        r@ == signed_decimal(n as int),
{
    if n < 0 {
        let size: u128 = (-(n + 1)) as u128 + 1;
        cat2("-", &wide_text(size))
    } else {
        wide_text(n as u128)
    }
}

/// A padded number has at least its width, no zeros more than that takes, and its value.
pub proof fn law_padded_numbers(n: nat, width: nat)
    ensures
        padded(n, width).len() == if decimal(n).len() < width {
            width
        } else {
            decimal(n).len()
        },
        digits_value(padded(n, width)) == n,
        forall|i: int| 0 <= i < padded(n, width).len() ==> is_digit(#[trigger] padded(n, width)[i]),
{
    lemma_digits_of_decimal(n);
    let d = decimal(n);
    if d.len() < width {
        let zeros = Seq::new((width - d.len()) as nat, |i: int| '0');
        lemma_leading_zeros(zeros, d);
    }
}

proof fn lemma_leading_zeros(zeros: Seq<char>, d: Seq<char>)
    requires
        forall|i: int| 0 <= i < zeros.len() ==> #[trigger] zeros[i] == '0',
    ensures
        digits_value(zeros + d) == digits_value(d),
    decreases zeros.len() + d.len(),
{
    if d.len() > 0 {
        lemma_leading_zeros(zeros, d.drop_last());
        assert((zeros + d).drop_last() =~= zeros + d.drop_last());
    } else if zeros.len() > 0 {
        lemma_leading_zeros(zeros.drop_last(), d);
        assert((zeros + d).drop_last() =~= zeros.drop_last() + d);
        assert(zeros[zeros.len() - 1] == '0');
    } else {
        assert(zeros + d =~= d);
    }
}

/// A text is a number exactly where it is digits, one at least and with a plus sign before
/// them or not, whose value is not above the largest.
pub proof fn law_which_texts_are_numbers(s: Seq<char>, max: nat)
    ensures
        s.len() > 0 && s[0] != '+' ==> (parsed_unsigned(s, max) is Some <==> digits_value(s) <= max
            && forall|i: int| 0 <= i < s.len() ==> '0' <= #[trigger] s[i] <= '9'),
        s.len() > 0 && s[0] != '+' ==> parsed_unsigned(seq!['+'] + s, max) == parsed_unsigned(
            s,
            max,
        ),
        parsed_unsigned(Seq::empty(), max) is None,
        parsed_unsigned(seq!['+'], max) is None,
        s.len() > 0 && s[0] != '+' && parsed_unsigned(s, max) is Some ==> parsed_unsigned(s, max)->0
            == digits_value(s),
{
    assert((seq!['+'] + s).skip(1) =~= s);
    assert(seq!['+'].skip(1) =~= Seq::<char>::empty());
    if s.len() > 0 && s[0] != '+' {
        if parsed_unsigned(s, max) is Some {
            assert forall|i: int| 0 <= i < s.len() implies '0' <= #[trigger] s[i] <= '9' by {
                assert(is_digit(s[i]));
            }
        }
        if forall|i: int| 0 <= i < s.len() ==> '0' <= #[trigger] s[i] <= '9' {
            assert forall|i: int| 0 <= i < s.len() implies is_digit(#[trigger] s[i]) by {}
        }
    }
}

/// A negative number is its amount behind a minus sign.
pub proof fn law_signed_numbers(n: nat)
    ensures
        signed_decimal(n as int) == decimal(n),
        n > 0 ==> signed_decimal(-n) == seq!['-'] + decimal(n),
{
    reveal_strlit("-");
    assert("-"@ =~= seq!['-']);
}

} // verus!
