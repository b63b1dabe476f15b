use npd::decimal::{parse_number, push_decimal, NumberError};
use npd::text::to_chars;

fn parse(s: &str) -> Result<usize, NumberError> {
    parse_number(&to_chars(s))
}

fn decimal(n: usize) -> String {
    let mut out = Vec::new();
    push_decimal(n, &mut out);
    out.into_iter().collect()
}

#[test]
fn numbers_are_read() {
    assert_eq!(parse("0"), Ok(0));
    assert_eq!(parse("6"), Ok(6));
    assert_eq!(parse("1234567890"), Ok(1234567890));
    assert_eq!(parse("+42"), Ok(42));
    assert_eq!(parse("0042"), Ok(42));
    assert_eq!(parse("+000"), Ok(0));
    assert_eq!(parse(&usize::MAX.to_string()), Ok(usize::MAX));
    assert_eq!(parse(&format!("000{}", usize::MAX)), Ok(usize::MAX));
}

#[test]
fn empty_text_is_no_number() {
    assert_eq!(parse(""), Err(NumberError::Empty));
}

#[test]
fn text_with_other_characters_is_no_number() {
    for s in ["+", "-", "-1", "++1", "+-1", "1+", "a", "1a", "a1", " 1", "1 ", "1_000", "0x10", "1.5", "\u{663}", "\u{ff11}"] {
        assert_eq!(parse(s), Err(NumberError::InvalidDigit), "{:?}", s);
    }
}

#[test]
fn too_large_a_number_is_refused() {
    let max = usize::MAX.to_string();
    let above = format!("{}{}", &max[..max.len() - 1], (max.as_bytes()[max.len() - 1] + 1) as char);
    assert_eq!(parse(&above), Err(NumberError::Overflow));
    assert_eq!(parse(&format!("{}0", max)), Err(NumberError::Overflow));
    assert_eq!(parse(&format!("+{}0", max)), Err(NumberError::Overflow));
}

#[test]
fn the_first_fault_names_the_error() {
    let max = usize::MAX.to_string();
    assert_eq!(parse(&format!("{}x", max)), Err(NumberError::InvalidDigit));
    assert_eq!(parse(&format!("{}0x", max)), Err(NumberError::Overflow));
    assert_eq!(parse(&format!("x{}0", max)), Err(NumberError::InvalidDigit));
}

#[test]
fn reading_agrees_with_std() {
    let max = usize::MAX.to_string();
    let samples = [
        "".to_string(),
        "0".to_string(),
        "+".to_string(),
        "-".to_string(),
        "-0".to_string(),
        "+17".to_string(),
        "17+".to_string(),
        "00017".to_string(),
        max.clone(),
        format!("{}1", max),
        format!("{}a", max),
        format!("{}1a", max),
        format!("a{}1", max),
        "99999999999999999999999999999999999999999z".to_string(),
    ];
    for s in samples {
        match (parse(&s), s.parse::<usize>()) {
            (Ok(ours), Ok(theirs)) => assert_eq!(ours, theirs, "{:?}", s),
            (Err(ours), Err(theirs)) => assert_eq!(ours.message(), theirs.to_string(), "{:?}", s),
            (ours, theirs) => panic!("{:?}: {:?} against {:?}", s, ours, theirs),
        }
    }
}

#[test]
fn numbers_are_written_without_leading_zeros() {
    assert_eq!(decimal(0), "0");
    assert_eq!(decimal(6), "6");
    assert_eq!(decimal(9), "9");
    assert_eq!(decimal(10), "10");
    assert_eq!(decimal(1005), "1005");
    assert_eq!(decimal(usize::MAX), usize::MAX.to_string());
}

#[test]
fn writing_appends() {
    let mut out = vec!['n', '='];
    push_decimal(120, &mut out);
    assert_eq!(out, vec!['n', '=', '1', '2', '0']);
}

#[test]
fn what_is_written_is_read_back() {
    for n in [0, 1, 9, 10, 99, 100, 4711, usize::MAX / 10, usize::MAX - 1, usize::MAX] {
        assert_eq!(parse(&decimal(n)), Ok(n));
    }
}

#[test]
fn number_errors_are_worded() {
    assert_eq!(NumberError::Empty.message(), "cannot parse integer from empty string");
    assert_eq!(NumberError::InvalidDigit.message(), "invalid digit found in string");
    assert_eq!(NumberError::Overflow.message(), "number too large to fit in target type");
}
