use lc1c::decimal::{append_decimal, parse_u16};
use lc1c::IntegerError;
use std::num::IntErrorKind;

fn written(n: u16) -> String {
    let mut out = String::new();
    append_decimal(&mut out, n);
    out
}

fn by_std(s: &str) -> Result<u16, IntegerError> {
    match s.parse::<u16>() {
        Ok(n) => Ok(n),
        Err(e) => Err(match e.kind() {
            IntErrorKind::Empty => IntegerError::Empty,
            IntErrorKind::InvalidDigit => IntegerError::InvalidDigit,
            IntErrorKind::PosOverflow => IntegerError::PosOverflow,
            other => panic!("{:?} has no place here", other),
        }),
    }
}

#[test]
fn parse_u16_reads_decimal_numbers() {
    assert_eq!(parse_u16("0"), Ok(0));
    assert_eq!(parse_u16("7"), Ok(7));
    assert_eq!(parse_u16("42"), Ok(42));
    assert_eq!(parse_u16("65535"), Ok(65535));
    assert_eq!(parse_u16("+12"), Ok(12));
    assert_eq!(parse_u16("00012"), Ok(12));
}

#[test]
fn parse_u16_reports_the_first_fault() {
    assert_eq!(parse_u16(""), Err(IntegerError::Empty));
    assert_eq!(parse_u16("+"), Err(IntegerError::InvalidDigit));
    assert_eq!(parse_u16("-"), Err(IntegerError::InvalidDigit));
    assert_eq!(parse_u16("-0"), Err(IntegerError::InvalidDigit));
    assert_eq!(parse_u16("++1"), Err(IntegerError::InvalidDigit));
    assert_eq!(parse_u16("1_000"), Err(IntegerError::InvalidDigit));
    assert_eq!(parse_u16(" 1"), Err(IntegerError::InvalidDigit));
    assert_eq!(parse_u16("1 "), Err(IntegerError::InvalidDigit));
    assert_eq!(parse_u16("\u{664}"), Err(IntegerError::InvalidDigit));
    assert_eq!(parse_u16("65536"), Err(IntegerError::PosOverflow));
    assert_eq!(parse_u16("70000"), Err(IntegerError::PosOverflow));
    assert_eq!(parse_u16("9999x"), Err(IntegerError::InvalidDigit));
    assert_eq!(parse_u16("99999x"), Err(IntegerError::PosOverflow));
    assert_eq!(parse_u16("6553x6"), Err(IntegerError::InvalidDigit));
}

#[test]
fn append_decimal_writes_without_padding() {
    assert_eq!(written(0), "0");
    assert_eq!(written(9), "9");
    assert_eq!(written(10), "10");
    assert_eq!(written(4096), "4096");
    assert_eq!(written(65535), "65535");
    let mut out = String::from("DEF ");
    append_decimal(&mut out, 7);
    assert_eq!(out, "DEF 7");
}

#[test]
fn every_number_is_written_as_std_writes_it_and_read_back() {
    for n in 0..=u16::MAX {
        let text = written(n);
        assert_eq!(text, n.to_string());
        assert_eq!(parse_u16(&text), Ok(n));
    }
}

#[test]
fn parse_u16_agrees_with_std_on_short_texts() {
    let alphabet = vec!['+', '-', '0', '1', '5', '6', '9', 'x', ' '];
    let mut texts = vec![String::new()];
    let mut from = 0;
    for _ in 0..6 {
        let upto = texts.len();
        for i in from..upto {
            for c in &alphabet {
                let mut t = texts[i].clone();
                t.push(*c);
                texts.push(t);
            }
        }
        from = upto;
    }
    for t in &texts {
        assert_eq!(parse_u16(t), by_std(t), "on {:?}", t);
    }
}

#[test]
fn parse_u16_agrees_with_std_near_the_limit() {
    for n in 65000u32..=70000 {
        let t = n.to_string();
        assert_eq!(parse_u16(&t), by_std(&t));
        let signed = format!("+{}", n);
        assert_eq!(parse_u16(&signed), by_std(&signed));
        let padded = format!("000{}", n);
        assert_eq!(parse_u16(&padded), by_std(&padded));
    }
}
