use qif_generator::text::{digit, format_amount, magnitude_of, push_amount, push_decimal, push_two_digits};

#[test]
fn amounts_with_two_fraction_digits() {
    let inputs: [i64; 8] = [0, 5, -5, 100, -100, 1000, -1000, 123456];
    let expected = ["0.00", "0.05", "-0.05", "1.00", "-1.00", "10.00", "-10.00", "1234.56"];
    for (v, text) in inputs.iter().zip(expected) {
        assert_eq!(format_amount(*v), text);
    }
}

#[test]
fn amounts_under_one_major_unit() {
    assert_eq!(format_amount(1), "0.01");
    assert_eq!(format_amount(-1), "-0.01");
    assert_eq!(format_amount(10), "0.10");
    assert_eq!(format_amount(-10), "-0.10");
    assert_eq!(format_amount(99), "0.99");
    assert_eq!(format_amount(-99), "-0.99");
}

#[test]
fn amounts_at_the_ends_of_the_range() {
    assert_eq!(format_amount(i64::MAX), "92233720368547758.07");
    assert_eq!(format_amount(i64::MIN), "-92233720368547758.08");
    assert_eq!(format_amount(101), "1.01");
    assert_eq!(format_amount(-3000), "-30.00");
}

#[test]
fn magnitudes() {
    assert_eq!(magnitude_of(0), 0);
    assert_eq!(magnitude_of(7), 7);
    assert_eq!(magnitude_of(-7), 7);
    assert_eq!(magnitude_of(i64::MAX), 9223372036854775807);
    assert_eq!(magnitude_of(i64::MIN), 9223372036854775808);
}

#[test]
fn digits() {
    let all: Vec<char> = (0u8..10).map(digit).collect();
    assert_eq!(all, vec!['0', '1', '2', '3', '4', '5', '6', '7', '8', '9']);
}

#[test]
fn decimal_is_appended() {
    let mut out = String::from("n=");
    push_decimal(&mut out, 0);
    assert_eq!(out, "n=0");
    push_decimal(&mut out, 907);
    assert_eq!(out, "n=0907");
    push_decimal(&mut out, u64::MAX);
    assert_eq!(out, "n=090718446744073709551615");
}

#[test]
fn two_digits_are_appended() {
    let mut out = String::from(":");
    push_two_digits(&mut out, 0);
    push_two_digits(&mut out, 7);
    push_two_digits(&mut out, 42);
    push_two_digits(&mut out, 99);
    assert_eq!(out, ":00074299");
}

#[test]
fn amount_is_appended() {
    let mut out = String::from("T");
    push_amount(&mut out, -1000);
    assert_eq!(out, "T-10.00");
    push_amount(&mut out, 5);
    assert_eq!(out, "T-10.000.05");
}

#[test]
fn amount_text_matches_padding_to_three_digits() {
    for v in [-123456i64, -1000, -100, -99, -10, -5, -1, 0, 1, 5, 10, 99, 100, 1000, 123456] {
        let digits = format!("{:03}", v.unsigned_abs());
        let cut = digits.len() - 2;
        let sign = if v < 0 { "-" } else { "" };
        assert_eq!(format_amount(v), format!("{}{}.{}", sign, &digits[..cut], &digits[cut..]));
    }
}
