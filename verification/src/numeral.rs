//! Reading a whole number typed as text, as `str::parse::<i32>` reads it: an
//! optional sign, then one or more decimal digits, and nothing else.
use vstd::prelude::*;
use vstd::string::*;
use crate::text::{digit_char, int_text, nat_text};

verus! {

/// `c` is one of the ASCII digits 0 to 9.
pub open spec fn is_digit(c: char) -> bool {
    '0' <= c <= '9'
}

/// The value of a decimal digit.
pub open spec fn digit_value(c: char) -> int {
    c as int - '0' as int
}

/// The value of a run of decimal digits, most significant first.
pub open spec fn digits_value(d: Seq<char>) -> int
    decreases d.len(),
{
    if d.len() == 0 {
        0
    } else {
        digits_value(d.drop_last()) * 10 + digit_value(d.last())
    }
}

/// All of `d` are decimal digits, and there is at least one.
pub open spec fn all_digits(d: Seq<char>) -> bool {
    d.len() > 0 && forall|i: int| 0 <= i < d.len() ==> is_digit(#[trigger] d[i])
}

/// `s` starts with a minus sign.
pub open spec fn signed_negative(s: Seq<char>) -> bool {
    s.len() > 0 && s[0] == '-'
}

/// What follows the sign of `s`, if it has one.
pub open spec fn unsigned_part(s: Seq<char>) -> Seq<char> {
    if s.len() > 0 && (s[0] == '-' || s[0] == '+') {
        s.drop_first()
    } else {
        s
    }
}

/// The number that `s` denotes, if it denotes a 32-bit integer: a `+` or
/// `-` may come first; the rest are decimal digits, at least one; the value
/// lies in the range of `i32`. Otherwise `None`.
pub open spec fn i32_value(s: Seq<char>) -> Option<int> {
    let d = unsigned_part(s);
    let v = if signed_negative(s) { -digits_value(d) } else { digits_value(d) };
    if all_digits(d) && i32::MIN <= v <= i32::MAX {
        Some(v)
    } else {
        None
    }
}

/// A run of digits has a value no smaller than that of any of its prefixes.
pub proof fn lemma_digits_value_grows(d: Seq<char>, n: int)
    requires
        0 <= n <= d.len(),
        forall|i: int| 0 <= i < d.len() ==> is_digit(#[trigger] d[i]),
    ensures
        0 <= digits_value(d.take(n)) <= digits_value(d),
    decreases d.len(),
{
    if d.len() > 0 {
        if n == d.len() {
            assert(d.take(n) =~= d);
            lemma_digits_value_grows(d.drop_last(), n - 1);
            assert(d.drop_last().take(n - 1) =~= d.drop_last());
        } else {
            lemma_digits_value_grows(d.drop_last(), n);
            assert(d.drop_last().take(n) =~= d.take(n));
            assert(d.drop_last().take(d.len() - 1) =~= d.drop_last());
            lemma_digits_value_grows(d.drop_last(), d.len() - 1);
        }
    } else {
        assert(d.take(n) =~= d);
    }
}

/// Reads `s` as `str::parse::<i32>` does.
pub fn parse_i32(s: &str) -> (r: Option<i32>)
    ensures
        match i32_value(s@) {
            Some(v) => r == Some(v as i32),
            None => r is None,
        },
{
    let n = s.unicode_len();
    let mut start: usize = 0;
    let mut negative = false;
    if n > 0 {
        let c = s.get_char(0);
        if c == '-' {
            negative = true;
            start = 1;
        } else if c == '+' {
            start = 1;
        }
    }
    let ghost d = s@.subrange(start as int, n as int);
    assert(d =~= unsigned_part(s@));
    assert(negative == signed_negative(s@));
    if start >= n {
        assert(d.len() == 0);
        assert(!all_digits(d));
        return None;
    }
    // The magnitude read so far, held at `limit + 1` once it passes `limit`.
    let limit: i64 = if negative { 2147483648 } else { 2147483647 };
    let mut value: i64 = 0;
    let mut i: usize = start;
    while i < n
        invariant
            start <= i <= n,
            n == s@.len(),
            d == s@.subrange(start as int, n as int),
            d == unsigned_part(s@),
            negative == signed_negative(s@),
            limit == (if negative { 2147483648i64 } else { 2147483647i64 }),
            forall|j: int| 0 <= j < i - start ==> is_digit(#[trigger] d[j]),
            value <= limit ==> value == digits_value(d.take(i - start)),
            value > limit ==> value == limit + 1 && digits_value(d.take(i - start)) > limit,
            0 <= value <= limit + 1,
        decreases n - i,
    {
        let c = s.get_char(i);
        if c < '0' || c > '9' {
            assert(!is_digit(d[i - start]));
            return None;
        }
        let ghost k = i - start;
        assert(d.take(k + 1).drop_last() =~= d.take(k));
        assert(d.take(k + 1).last() == c);
        let digit: i64 = (c as u32 - '0' as u32) as i64;
        if value <= limit {
            let next: i64 = value * 10 + digit;
            if next > limit {
                value = limit + 1;
            } else {
                value = next;
            }
        } else {
            proof {
                assert(digits_value(d.take(k)) >= 0) by {
                    lemma_digits_value_grows(d.take(k + 1), k);
                    assert(d.take(k + 1).take(k) =~= d.take(k));
                }
            }
        }
        i = i + 1;
    }
    assert(d.take(n - start) =~= d);
    if value > limit {
        None
    } else if negative {
        Some((-value) as i32)
    } else {
        Some(value as i32)
    }
}

/// The numeral of a natural number is a run of digits with that value.
pub proof fn lemma_nat_text_value(n: nat)
    ensures
        all_digits(nat_text(n)),
        digits_value(nat_text(n)) == n,
    decreases n,
{
    if n < 10 {
        let t = nat_text(n);
        assert(t.drop_last() =~= Seq::<char>::empty());
        assert(digit_char(n as int) as int == n + 48);
        assert(digit_value(t.last()) == n);
        assert(digits_value(t.drop_last()) == 0);
        assert(digits_value(t) == digits_value(t.drop_last()) * 10 + digit_value(t.last()));
    } else {
        lemma_nat_text_value(n / 10);
        let t = nat_text(n);
        assert(t.drop_last() =~= nat_text(n / 10));
        assert(digit_char((n % 10) as int) as int == n % 10 + 48);
        assert(digit_value(t.last()) == n % 10);
        assert(digits_value(t) == digits_value(t.drop_last()) * 10 + digit_value(t.last()));
        assert((n / 10) * 10 + n % 10 == n);
        assert forall|i: int| 0 <= i < t.len() implies is_digit(#[trigger] t[i]) by {
            if i < t.len() - 1 {
                assert(t[i] == nat_text(n / 10)[i]);
            }
        }
    }
}

/// Reading back the numeral of a 32-bit integer gives that integer: what
/// the programs write as a number, they read as the same number.
pub proof fn lemma_int_text_reads_back(n: i32)
    ensures
        i32_value(int_text(n as int)) == Some(n as int),
{
    if n < 0 {
        let m = (-(n as int)) as nat;
        lemma_nat_text_value(m);
        let t = int_text(n as int);
        assert(t[0] == '-');
        assert(t.drop_first() =~= nat_text(m));
    } else {
        lemma_nat_text_value(n as nat);
        let t = int_text(n as int);
        assert(is_digit(t[0]));
    }
}

} // verus!
