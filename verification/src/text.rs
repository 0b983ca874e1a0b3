//! Text as sequences of characters: reading a string's characters, comparing
//! them, and the decimal notation of unsigned numbers in both directions.

use vstd::prelude::*;
use vstd::string::*;

verus! {

/// A decimal digit.
pub open spec fn is_digit(c: char) -> bool {
    '0' <= c <= '9'
}

/// The number that a decimal digit stands for.
pub open spec fn digit_value(c: char) -> nat
    recommends
        is_digit(c),
{
    (c as int - '0' as int) as nat
}

/// The digit that stands for a number below ten.
pub open spec fn digit_char(d: nat) -> char
    recommends
        d < 10,
{
    if d == 0 {
        '0'
    } else if d == 1 {
        '1'
    } else if d == 2 {
        '2'
    } else if d == 3 {
        '3'
    } else if d == 4 {
        '4'
    } else if d == 5 {
        '5'
    } else if d == 6 {
        '6'
    } else if d == 7 {
        '7'
    } else if d == 8 {
        '8'
    } else {
        '9'
    }
}

/// Every character of `s` is a decimal digit.
pub open spec fn all_digits(s: Seq<char>) -> bool {
    forall|i: int| 0 <= i < s.len() ==> is_digit(#[trigger] s[i])
}

/// The number that a run of decimal digits denotes, most significant first.
/// The empty run denotes zero.
pub open spec fn digits_value(s: Seq<char>) -> nat
    decreases s.len(),
{
    if s.len() == 0 {
        0
    } else {
        digits_value(s.drop_last()) * 10 + digit_value(s.last())
    }
}

/// The digits of an unsigned numeral: what is left once one leading plus sign,
/// if there is one, is taken off.
pub open spec fn numeral_digits(s: Seq<char>) -> Seq<char> {
    if s.len() > 0 && s[0] == '+' {
        s.subrange(1, s.len() as int)
    } else {
        s
    }
}

/// An unsigned numeral: an optional plus sign, then one digit or more, and
/// nothing else.
pub open spec fn is_numeral(s: Seq<char>) -> bool {
    numeral_digits(s).len() > 0 && all_digits(numeral_digits(s))
}

/// What reading `s` as an unsigned number no greater than `limit` gives: the
/// number, where `s` is a numeral that denotes one within the limit.
pub open spec fn parse_unsigned_spec(s: Seq<char>, limit: nat) -> Option<nat> {
    if is_numeral(s) && digits_value(numeral_digits(s)) <= limit {
        Some(digits_value(numeral_digits(s)))
    } else {
        None
    }
}

/// The shortest decimal notation of a number.
pub open spec fn decimal_digits(n: nat) -> Seq<char>
    decreases n,
{
    if n < 10 {
        seq![digit_char(n)]
    } else {
        decimal_digits(n / 10).push(digit_char(n % 10))
    }
}

/// The characters of a string, in order.
pub fn chars_of(s: &str) -> (chars: Vec<char>)
    ensures
        chars@ == s@,
{
    let mut chars: Vec<char> = Vec::new();
    for c in it: s.chars()
        invariant
            it.seq() == s@,
            chars@ == it.seq().take(it.index()),
    {
        chars.push(c);
    }
    chars
}

/// Whether two runs of characters are the same text.
pub fn same_chars(a: &[char], b: &[char]) -> (same: bool)
    ensures
        same == (a@ == b@),
{
    if a.len() != b.len() {
        return false;
    }
    let mut i: usize = 0;
    while i < a.len()
        invariant
            a.len() == b.len(),
            i <= a.len(),
            a@.take(i as int) == b@.take(i as int),
        decreases a.len() - i,
    {
        if a[i] != b[i] {
            return false;
        }
        assert(a@.take(i + 1) == a@.take(i as int).push(a@[i as int]));
        assert(b@.take(i + 1) == b@.take(i as int).push(b@[i as int]));
        i = i + 1;
    }
    assert(a@.take(a.len() as int) == a@);
    assert(b@.take(b.len() as int) == b@);
    true
}

/// Whether a string is the given text.
pub fn is_text(s: &str, chars: &[char]) -> (same: bool)
    ensures
        same == (s@ == chars@),
{
    let own = chars_of(s);
    same_chars(own.as_slice(), chars)
}

/// Whether `chars` begins with `prefix`.
pub fn starts_with(chars: &[char], prefix: &[char]) -> (found: bool)
    ensures
        found == (prefix@.len() <= chars@.len() && chars@.take(prefix@.len() as int)
            == prefix@),
{
    if prefix.len() > chars.len() {
        return false;
    }
    let mut i: usize = 0;
    while i < prefix.len()
        invariant
            prefix.len() <= chars.len(),
            i <= prefix.len(),
            chars@.take(i as int) == prefix@.take(i as int),
        decreases prefix.len() - i,
    {
        if chars[i] != prefix[i] {
            assert(chars@.take(prefix@.len() as int)[i as int] != prefix@[i as int]);
            return false;
        }
        assert(chars@.take(i + 1) == chars@.take(i as int).push(chars@[i as int]));
        assert(prefix@.take(i + 1) == prefix@.take(i as int).push(prefix@[i as int]));
        i = i + 1;
    }
    assert(prefix@.take(prefix.len() as int) == prefix@);
    true
}

/// Reads the characters from `start` on as an unsigned number no greater than
/// `limit`: an optional plus sign and then digits only, of which there is at
/// least one. Leading zeros count for nothing; a number above the limit,
/// however long, is refused like any other text that is no such numeral.
pub fn parse_unsigned(chars: &[char], start: usize, limit: u32) -> (parsed: Option<u32>)
    requires
        start <= chars@.len(),
    ensures
        match parse_unsigned_spec(chars@.subrange(start as int, chars@.len() as int), limit as nat) {
            Some(n) => parsed == Some(n as u32),
            None => parsed is None,
        },
{
    let ghost s = chars@.subrange(start as int, chars@.len() as int);
    let mut i: usize = start;
    if i < chars.len() && chars[i] == '+' {
        i = i + 1;
    }
    let first: usize = i;
    let ghost digits = numeral_digits(s);
    assert(digits == chars@.subrange(first as int, chars@.len() as int));
    if i == chars.len() {
        return None;
    }
    let mut value: u64 = 0;
    while i < chars.len()
        invariant
            first <= i <= chars.len(),
            start <= chars@.len(),
            s == chars@.subrange(start as int, chars@.len() as int),
            digits == numeral_digits(s),
            digits == chars@.subrange(first as int, chars@.len() as int),
            all_digits(digits.take(i - first)),
            value == digits_value(digits.take(i - first)),
            value <= limit,
        decreases chars.len() - i,
    {
        let c = chars[i];
        let ghost seen = digits.take(i - first);
        let ghost next = digits.take(i - first + 1);
        assert(next.drop_last() == seen);
        assert(next.last() == c);
        if !(c >= '0' && c <= '9') {
            assert(!is_digit(digits[i - first]));
            return None;
        }
        let d: u64 = (c as u64) - ('0' as u64);
        assert(d == digit_value(c));
        let grown: u64 = value * 10 + d;
        assert(grown == digits_value(next));
        if grown > limit as u64 {
            proof {
                lemma_digits_value_grows(digits, i - first + 1);
            }
            return None;
        }
        assert forall|k: int| 0 <= k < next.len() implies is_digit(#[trigger] next[k]) by {
            if k < seen.len() {
                assert(next[k] == seen[k]);
            }
        }
        value = grown;
        i = i + 1;
    }
    assert(digits.take(i - first) == digits);
    Some(value as u32)
}

/// A run of digits denotes at least what any of its beginnings denotes.
proof fn lemma_digits_value_grows(s: Seq<char>, n: int)
    requires
        0 <= n <= s.len(),
    ensures
        digits_value(s.take(n)) <= digits_value(s),
    decreases s.len(),
{
    if n == s.len() {
        assert(s.take(n) == s);
    } else {
        assert(s.drop_last().take(n) == s.take(n));
        lemma_digits_value_grows(s.drop_last(), n);
    }
}

/// The one-character text of a digit.
pub fn digit_text(d: u8) -> (text: &'static str)
    requires
        d < 10,
    ensures
        text@ == seq![digit_char(d as nat)],
{
    proof {
        reveal_strlit("0");
        reveal_strlit("1");
        reveal_strlit("2");
        reveal_strlit("3");
        reveal_strlit("4");
        reveal_strlit("5");
        reveal_strlit("6");
        reveal_strlit("7");
        reveal_strlit("8");
        reveal_strlit("9");
    }
    let text = match d {
        0 => "0",
        1 => "1",
        2 => "2",
        3 => "3",
        4 => "4",
        5 => "5",
        6 => "6",
        7 => "7",
        8 => "8",
        _ => "9",
    };
    assert(text@ =~= seq![digit_char(d as nat)]);
    text
}

/// The shortest decimal notation of `n`.
pub fn decimal_text(n: u8) -> (text: String)
    ensures
        text@ == decimal_digits(n as nat),
{
    let mut text = String::new();
    if n >= 100 {
        text.append(digit_text(n / 100));
    }
    if n >= 10 {
        text.append(digit_text((n / 10) % 10));
    }
    text.append(digit_text(n % 10));
    proof {
        let m = n as nat;
        reveal_with_fuel(decimal_digits, 3);
        if m >= 100 {
            assert((m / 10) / 10 == m / 100);
            assert(m / 100 < 10);
        }
        assert(text@ =~= decimal_digits(m));
    }
    text
}

/// The decimal notation of a number is a numeral without a sign, and it
/// denotes that number.
pub proof fn lemma_decimal_digits(n: nat)
    ensures
        decimal_digits(n).len() > 0,
        all_digits(decimal_digits(n)),
        numeral_digits(decimal_digits(n)) == decimal_digits(n),
        digits_value(decimal_digits(n)) == n,
    decreases n,
{
    let s = decimal_digits(n);
    if n < 10 {
        assert(s.drop_last() =~= Seq::<char>::empty());
        assert(digits_value(s.drop_last()) == 0);
    } else {
        lemma_decimal_digits(n / 10);
        assert(s.drop_last() =~= decimal_digits(n / 10));
        assert(s[0] == decimal_digits(n / 10)[0]);
    }
}

/// Reading the decimal notation of a number gives the number back, whenever
/// the limit allows it.
pub proof fn lemma_parse_decimal(n: nat, limit: nat)
    requires
        n <= limit,
    ensures
        parse_unsigned_spec(decimal_digits(n), limit) == Some(n),
{
    lemma_decimal_digits(n);
}

} // verus!
