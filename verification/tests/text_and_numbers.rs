use seven_guis::counter::Counter;
use seven_guis::geometry::distance;
use seven_guis::numeral::parse_i32;
use seven_guis::temperature::{celsius_changed, fahrenheit_changed};
use seven_guis::text::{push_int, push_nat, starts_with};

#[test]
fn numerals_are_written_in_decimal() {
    let mut s = String::new();
    push_nat(&mut s, 0);
    assert_eq!(s, "0");
    let mut s = String::from("x=");
    push_int(&mut s, -9_223_372_036_854_775_808);
    assert_eq!(s, "x=-9223372036854775808");
    let mut s = String::new();
    push_int(&mut s, 1_234_567);
    assert_eq!(s, "1234567");
}

#[test]
fn prefixes_are_compared_character_by_character() {
    assert!(starts_with("babbage", "bab"));
    assert!(starts_with("babbage", ""));
    assert!(!starts_with("bab", "babbage"));
    assert!(!starts_with("lovelace", "love!"));
    assert!(starts_with("élan", "él"));
}

#[test]
fn parse_reads_what_str_parse_reads() {
    let cases = [
        "42", "-17", "+5", "", "-", "+", "12a", "2147483647", "2147483648", "-2147483648",
        "-2147483649", " 1", "1 ", "007", "-0", "+-1", "99999999999999999999", "٣",
    ];
    for text in cases {
        assert_eq!(parse_i32(text), text.parse::<i32>().ok(), "text {:?}", text);
    }
    assert_eq!(parse_i32("-2147483648"), Some(i32::MIN));
    assert_eq!(parse_i32("2147483648"), None);
}

#[test]
fn written_numbers_read_back() {
    for n in [0i32, 1, -1, 9, 10, -10, 2147483647, -2147483648, 123456] {
        let mut s = String::new();
        push_int(&mut s, n as i64);
        assert_eq!(parse_i32(&s), Some(n));
    }
}

#[test]
fn counter_counts_presses() {
    let mut c = Counter::new();
    assert_eq!(c.text(), "0");
    for _ in 0..12 {
        c.increment();
    }
    assert_eq!(c.value(), 12);
    assert_eq!(c.text(), "12");
}

#[test]
fn counter_reaches_the_top_of_a_byte() {
    let mut c = Counter::new();
    for _ in 0..255 {
        c.increment();
    }
    assert_eq!(c.text(), "255");
}

fn float_fahrenheit(c: i32) -> String {
    let value = f64::from(c) * (9.0 / 5.0) + 32.0;
    format!("{}", value.round())
}

fn float_celsius(f: i32) -> String {
    let value = (f64::from(f) - 32.0) * (5.0 / 9.0);
    format!("{}", value.round())
}

#[test]
fn celsius_converts_to_fahrenheit() {
    assert_eq!(celsius_changed("100"), "212");
    assert_eq!(celsius_changed("0"), "32");
    assert_eq!(celsius_changed("-40"), "-40");
    assert_eq!(celsius_changed("37"), "99");
    assert_eq!(celsius_changed("-18"), "-0");
    assert_eq!(celsius_changed("abc"), "");
    assert_eq!(celsius_changed(""), "");
}

#[test]
fn fahrenheit_converts_to_celsius() {
    assert_eq!(fahrenheit_changed("212"), "100");
    assert_eq!(fahrenheit_changed("32"), "0");
    assert_eq!(fahrenheit_changed("0"), "-18");
    assert_eq!(fahrenheit_changed("-40"), "-40");
    assert_eq!(fahrenheit_changed("98"), "37");
    assert_eq!(fahrenheit_changed("3.5"), "");
}

#[test]
fn conversions_agree_with_double_precision() {
    let mut c: i64 = -2_147_483_648;
    while c <= 2_147_483_647 {
        let v = c as i32;
        assert_eq!(celsius_changed(&v.to_string()), float_fahrenheit(v), "celsius {}", v);
        assert_eq!(fahrenheit_changed(&v.to_string()), float_celsius(v), "fahrenheit {}", v);
        c += 9_973_331;
    }
    for v in -1000..1000 {
        assert_eq!(celsius_changed(&v.to_string()), float_fahrenheit(v), "celsius {}", v);
        assert_eq!(fahrenheit_changed(&v.to_string()), float_celsius(v), "fahrenheit {}", v);
    }
}

#[test]
fn celsius_survives_a_round_trip() {
    for c in [-300, -18, -17, 0, 1, 37, 100, 1000] {
        let f = celsius_changed(&c.to_string());
        assert_eq!(fahrenheit_changed(&f), c.to_string());
    }
}

#[test]
fn distance_is_rounded_down() {
    assert_eq!(distance((0, 0), (3, 4)), 5);
    assert_eq!(distance((0, 0), (1, 1)), 1);
    assert_eq!(distance((2, 2), (0, 0)), 2);
    assert_eq!(distance((10, 10), (10, 10)), 0);
    assert_eq!(distance((0, 0), (46340, 0)), 46340);
    assert_eq!(distance((-5, 7), (7, -9)), 20);
}
