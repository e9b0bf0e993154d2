//! The temperature converter: a whole number typed in one field shows up,
//! converted and rounded, in the other.
//!
//! The conversions are exact rational arithmetic rounded to the nearest
//! whole number. The quotients here are never halfway between two whole
//! numbers (ninths and fifths never end in one half), so half-way rounding
//! never decides, and the error of computing them in double precision stays
//! far below the distance to a halfway point.
use vstd::prelude::*;
use vstd::string::*;
use crate::numeral::{i32_value, lemma_int_text_reads_back, parse_i32};
use crate::text::{int_text, push_int};

verus! {

/// `num / den` rounded to the nearest whole number, halves away from zero.
pub open spec fn round_ratio(num: int, den: int) -> int
    recommends
        den > 0,
{
    if num >= 0 {
        (2 * num + den) / (2 * den)
    } else {
        -((2 * (-num) + den) / (2 * den))
    }
}

/// The Fahrenheit reading of `c` degrees Celsius: `c * 9/5 + 32`, rounded.
pub open spec fn fahrenheit_of(c: int) -> int {
    round_ratio(9 * c + 160, 5)
}

/// The Celsius reading of `f` degrees Fahrenheit: `(f - 32) * 5/9`, rounded.
pub open spec fn celsius_of(f: int) -> int {
    round_ratio(5 * (f - 32), 9)
}

/// How a rounded quotient is shown: its numeral, except that a negative
/// quotient that rounds to zero shows as `-0`, the way a negative zero in
/// double precision prints.
pub open spec fn rounded_text(num: int, den: int) -> Seq<char> {
    if num < 0 && round_ratio(num, den) == 0 {
        "-0"@
    } else {
        int_text(round_ratio(num, den))
    }
}

/// What the Fahrenheit field shows when the Celsius field holds `text`:
/// the converted reading, or nothing when `text` is not a 32-bit integer.
pub open spec fn fahrenheit_text(text: Seq<char>) -> Seq<char> {
    match i32_value(text) {
        Some(c) => rounded_text(9 * c + 160, 5),
        None => Seq::<char>::empty(),
    }
}

/// What the Celsius field shows when the Fahrenheit field holds `text`:
/// the converted reading, or nothing when `text` is not a 32-bit integer.
pub open spec fn celsius_text(text: Seq<char>) -> Seq<char> {
    match i32_value(text) {
        Some(f) => rounded_text(5 * (f - 32), 9),
        None => Seq::<char>::empty(),
    }
}

fn push_rounded(s: &mut String, num: i64, den: i64)
    requires
        0 < den <= 9,
        -0x1_0000_0000_0000 <= num <= 0x1_0000_0000_0000,
    ensures
        final(s)@ == old(s)@ + rounded_text(num as int, den as int),
{
    let q: i64 = if num >= 0 {
        (2 * num + den) / (2 * den)
    } else {
        -((2 * (-num) + den) / (2 * den))
    };
    assert(q == round_ratio(num as int, den as int));
    if num < 0 && q == 0 {
        s.append("-0");
    } else {
        push_int(s, q);
    }
}

/// The text of the Fahrenheit field after the Celsius field changed to
/// `celsius`.
pub fn celsius_changed(celsius: &str) -> (fahrenheit: String)
    ensures
        fahrenheit@ == fahrenheit_text(celsius@),
{
    let mut out = String::new();
    match parse_i32(celsius) {
        Some(c) => {
            push_rounded(&mut out, 9 * (c as i64) + 160, 5);
            assert(out@ =~= fahrenheit_text(celsius@));
        },
        None => {},
    }
    out
}

/// The text of the Celsius field after the Fahrenheit field changed to
/// `fahrenheit`.
pub fn fahrenheit_changed(fahrenheit: &str) -> (celsius: String)
    ensures
        celsius@ == celsius_text(fahrenheit@),
{
    let mut out = String::new();
    match parse_i32(fahrenheit) {
        Some(f) => {
            push_rounded(&mut out, 5 * ((f as i64) - 32), 9);
            assert(out@ =~= celsius_text(fahrenheit@));
        },
        None => {},
    }
    out
}

/// Converting a Celsius reading to Fahrenheit and back gives the same
/// reading: the Fahrenheit rounding moves by at most two fifths of a degree
/// Fahrenheit, which is less than half a degree Celsius.
pub proof fn lemma_celsius_roundtrip(c: int)
    ensures
        celsius_of(fahrenheit_of(c)) == c,
{
    let x = 9 * c + 160;
    let f = fahrenheit_of(c);
    let e = 5 * f - x;
    assert(-2 <= e <= 2) by {
        if x >= 0 {
            assert(5 * ((2 * x + 5) / 10) - x <= 2 && 5 * ((2 * x + 5) / 10) - x >= -2) by (nonlinear_arith)
                requires
                    x >= 0,
            ;
        } else {
            let y = -x;
            assert(5 * ((2 * y + 5) / 10) - y <= 2 && 5 * ((2 * y + 5) / 10) - y >= -2) by (nonlinear_arith)
                requires
                    y > 0,
            ;
        }
    }
    let n = 5 * (f - 32);
    assert(n == 9 * c + e);
    if n >= 0 {
        assert((2 * n + 9) / 18 == c) by (nonlinear_arith)
            requires
                n == 9 * c + e,
                -2 <= e <= 2,
                n >= 0,
        ;
    } else {
        assert(-((2 * (-n) + 9) / 18) == c) by (nonlinear_arith)
            requires
                n == 9 * c + e,
                -2 <= e <= 2,
                n < 0,
        ;
    }
}

/// Typing a Celsius reading, then typing the Fahrenheit reading shown for
/// it into the Fahrenheit field, shows the first reading again, wherever the
/// Fahrenheit reading is a 32-bit integer.
pub proof fn lemma_fields_roundtrip(text: Seq<char>, c: int)
    requires
        i32_value(text) == Some(c),
        i32::MIN <= fahrenheit_of(c) <= i32::MAX,
    ensures
        celsius_text(fahrenheit_text(text)) == int_text(c),
{
    let f = fahrenheit_of(c);
    let shown = fahrenheit_text(text);
    if 9 * c + 160 < 0 && f == 0 {
        assert(shown == "-0"@);
        assert(int_text(0) =~= seq!['0']);
        lemma_int_text_reads_back(0);
        assert(i32_value(seq!['-', '0']) == Some(0int)) by {
            assert(seq!['-', '0'].drop_first() =~= seq!['0']);
            assert(i32_value(seq!['0']) == Some(0int));
        }
        assert("-0"@ =~= seq!['-', '0']) by {
            reveal_strlit("-0");
        }
    } else {
        assert(shown == int_text(f));
        lemma_int_text_reads_back(f as i32);
    }
    assert(i32_value(shown) == Some(f));
    lemma_celsius_roundtrip(c);
    let num = 5 * (f - 32);
    if num < 0 && round_ratio(num, 9) == 0 {
        assert(2 * (-num) + 9 < 18);
    }
}

/// Each reading is the whole number nearest to the exact conversion: the
/// Fahrenheit reading lies within half a degree of `c * 9/5 + 32`, the
/// Celsius reading within half a degree of `(f - 32) * 5/9`.
pub proof fn lemma_readings_are_nearest(c: int, f: int)
    ensures
        -5 <= 2 * (5 * fahrenheit_of(c) - (9 * c + 160)) <= 5,
        -9 <= 2 * (9 * celsius_of(f) - 5 * (f - 32)) <= 9,
{
    let x = 9 * c + 160;
    if x >= 0 {
        assert(-5 <= 2 * (5 * ((2 * x + 5) / 10) - x) <= 5) by (nonlinear_arith)
            requires
                x >= 0,
        ;
    } else {
        let y = -x;
        assert(-5 <= 2 * (5 * ((2 * y + 5) / 10) - y) <= 5) by (nonlinear_arith)
            requires
                y > 0,
        ;
    }
    let n = 5 * (f - 32);
    if n >= 0 {
        assert(-9 <= 2 * (9 * ((2 * n + 9) / 18) - n) <= 9) by (nonlinear_arith)
            requires
                n >= 0,
        ;
    } else {
        let m = -n;
        assert(-9 <= 2 * (9 * ((2 * m + 9) / 18) - m) <= 9) by (nonlinear_arith)
            requires
                m > 0,
        ;
    }
}

} // verus!
