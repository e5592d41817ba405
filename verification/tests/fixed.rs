use fastsim_vehicle::fixed::{Fixed, SCALE};

fn fx(x: f64) -> Fixed {
    Fixed::from_raw((x * 1e9).round() as i64)
}

fn c(s: &str) -> Vec<char> {
    s.chars().collect()
}

#[test]
fn sums_and_differences() {
    assert_eq!(fx(1.5).plus(fx(2.25)), fx(3.75));
    assert_eq!(fx(1.5).minus(fx(2.25)), fx(-0.75));
    assert_eq!(Fixed::from_raw(i64::MAX).plus(fx(1.0)), Fixed::from_raw(i64::MAX));
    assert_eq!(Fixed::from_raw(i64::MIN).minus(fx(1.0)), Fixed::from_raw(i64::MIN));
}

#[test]
fn products_round_toward_zero() {
    assert_eq!(fx(1.5).times(fx(2.0)), fx(3.0));
    assert_eq!(fx(-1.5).times(fx(2.0)), fx(-3.0));
    assert_eq!(Fixed::from_raw(1).times(Fixed::from_raw(999_999_999)), Fixed::from_raw(0));
    assert_eq!(Fixed::from_raw(-1).times(Fixed::from_raw(999_999_999)), Fixed::from_raw(0));
    assert_eq!(Fixed::from_raw(3).times(fx(0.5)), Fixed::from_raw(1));
    assert_eq!(Fixed::from_raw(-3).times(fx(0.5)), Fixed::from_raw(-1));
    assert_eq!(Fixed::from_raw(i64::MAX).times(fx(2.0)), Fixed::from_raw(i64::MAX));
    assert_eq!(Fixed::from_raw(i64::MAX).times(fx(-2.0)), Fixed::from_raw(i64::MIN));
}

#[test]
fn quotients_round_toward_zero() {
    assert_eq!(fx(3.0).over(fx(2.0)), fx(1.5));
    assert_eq!(fx(1.0).over(fx(3.0)), Fixed::from_raw(333_333_333));
    assert_eq!(fx(-1.0).over(fx(3.0)), Fixed::from_raw(-333_333_333));
    assert_eq!(fx(1.0).over(fx(-3.0)), Fixed::from_raw(-333_333_333));
    assert_eq!(fx(-1.0).over(fx(-3.0)), Fixed::from_raw(333_333_333));
}

#[test]
fn quotient_by_zero_is_an_end_of_the_range() {
    assert_eq!(fx(1.0).over(fx(0.0)), Fixed::from_raw(i64::MAX));
    assert_eq!(fx(-1.0).over(fx(0.0)), Fixed::from_raw(i64::MIN));
    assert_eq!(fx(0.0).over(fx(0.0)), Fixed::from_raw(0));
}

#[test]
fn whole_numbers_and_counts() {
    assert_eq!(Fixed::from_int(26), fx(26.0));
    assert_eq!(Fixed::from_int(-3), fx(-3.0));
    assert_eq!(Fixed::from_int(i64::MAX), Fixed::from_raw(i64::MAX));
    assert_eq!(Fixed::from_int(i64::MIN), Fixed::from_raw(i64::MIN));
    assert_eq!(Fixed::from_count(299), fx(299.0));
    assert_eq!(Fixed::one().raw, SCALE);
    assert_eq!(Fixed::zero().raw, 0);
}

#[test]
fn absolute_value_and_order() {
    assert_eq!(fx(-1.25).abs(), fx(1.25));
    assert_eq!(fx(1.25).abs(), fx(1.25));
    assert_eq!(Fixed::from_raw(i64::MIN).abs(), Fixed::from_raw(i64::MAX));
    assert_eq!(fx(1.0).larger(fx(2.0)), fx(2.0));
    assert_eq!(fx(1.0).smaller(fx(2.0)), fx(1.0));
}

#[test]
fn rounding_to_a_tenth() {
    assert_eq!(fx(1.969).round_tenth(), fx(2.0));
    assert_eq!(fx(1.987).round_tenth(), fx(2.0));
    assert_eq!(fx(3.456).round_tenth(), fx(3.5));
    assert_eq!(fx(0.001).round_tenth(), fx(0.0));
    assert_eq!(fx(0.05).round_tenth(), fx(0.1));
    assert_eq!(fx(-0.05).round_tenth(), fx(-0.1));
    assert_eq!(fx(0.049999999).round_tenth(), fx(0.0));
}

#[test]
fn rounding_to_zero() {
    assert!(fx(0.001).rounds_to_zero());
    assert!(fx(-0.499999999).rounds_to_zero());
    assert!(!fx(0.5).rounds_to_zero());
    assert!(!fx(-0.5).rounds_to_zero());
    assert!(!fx(1.969).rounds_to_zero());
}

#[test]
fn parse_decimal_texts() {
    assert_eq!(Fixed::parse(&c("2.0")), Some(fx(2.0)));
    assert_eq!(Fixed::parse(&c("3.5")), Some(fx(3.5)));
    assert_eq!(Fixed::parse(&c("7")), Some(fx(7.0)));
    assert_eq!(Fixed::parse(&c("-0.6811")), Some(fx(-0.6811)));
    assert_eq!(Fixed::parse(&c("+1.25")), Some(fx(1.25)));
    assert_eq!(Fixed::parse(&c(".5")), Some(fx(0.5)));
    assert_eq!(Fixed::parse(&c("5.")), Some(fx(5.0)));
    assert_eq!(Fixed::parse(&c("0.1234567891")), Some(Fixed::from_raw(123_456_789)));
    assert_eq!(Fixed::parse(&c("99999999999")), Some(Fixed::from_raw(i64::MAX)));
    assert_eq!(Fixed::parse(&c("-99999999999")), Some(Fixed::from_raw(i64::MIN)));
}

#[test]
fn parse_rejects_what_is_no_decimal() {
    assert_eq!(Fixed::parse(&c("")), None);
    assert_eq!(Fixed::parse(&c(".")), None);
    assert_eq!(Fixed::parse(&c("-")), None);
    assert_eq!(Fixed::parse(&c("1.2.3")), None);
    assert_eq!(Fixed::parse(&c("1e3")), None);
    assert_eq!(Fixed::parse(&c(" 1")), None);
    assert_eq!(Fixed::parse(&c("--1")), None);
}
