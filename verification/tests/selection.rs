use music_visualizer::error::AppError;
use music_visualizer::selection::{decimal, parse_number, select_device};

fn chars(s: &str) -> Vec<char> {
    s.chars().collect()
}

fn not_a_number() -> Result<usize, AppError> {
    Err(AppError::Audio("Invalid input, expected a number".to_string()))
}

#[test]
fn numbers_are_written_in_decimal() {
    assert_eq!(decimal(0), "0");
    assert_eq!(decimal(7), "7");
    assert_eq!(decimal(10), "10");
    assert_eq!(decimal(1234567890), "1234567890");
    assert_eq!(decimal(usize::MAX), usize::MAX.to_string());
}

#[test]
fn decimal_digits_are_read_as_numbers() {
    assert_eq!(parse_number(&chars("0")), Some(0));
    assert_eq!(parse_number(&chars("42")), Some(42));
    assert_eq!(parse_number(&chars("+42")), Some(42));
    assert_eq!(parse_number(&chars("007")), Some(7));
    assert_eq!(parse_number(&chars(&usize::MAX.to_string())), Some(usize::MAX));
}

#[test]
fn other_texts_are_no_numbers() {
    for text in ["", "+", "-1", "-0", "1.5", "1 2", " 1", "1 ", "one", "++1", "1+", "0x10", "\u{661}"]
    {
        assert_eq!(parse_number(&chars(text)), None);
        assert!(text.parse::<usize>().is_err());
    }
}

#[test]
fn numbers_that_do_not_fit_are_not_read() {
    let too_large = format!("{}0", usize::MAX);
    assert_eq!(parse_number(&chars(&too_large)), None);
    let one_more = format!("{}", usize::MAX as u128 + 1);
    assert_eq!(parse_number(&chars(&one_more)), None);
    assert_eq!(select_device(&one_more, usize::MAX), not_a_number());
}

#[test]
fn written_numbers_are_read_back() {
    for n in [0usize, 1, 9, 10, 99, 100, 65535, 4294967295, usize::MAX] {
        assert_eq!(parse_number(&chars(&decimal(n))), Some(n));
    }
}

#[test]
fn answer_selects_a_device_counted_from_one() {
    assert_eq!(select_device("1\n", 3), Ok(0));
    assert_eq!(select_device("  3 \r\n", 3), Ok(2));
    assert_eq!(select_device("+2", 3), Ok(1));
    assert_eq!(select_device("1", 1), Ok(0));
}

#[test]
fn answer_beyond_the_list_is_refused() {
    let refused =
        Err(AppError::Audio("Invalid selection, must be between 1 and 3".to_string()));
    assert_eq!(select_device("0\n", 3), refused);
    assert_eq!(select_device("4\n", 3), refused);
    assert_eq!(select_device("18446744073709551615", 3), refused);
    assert_eq!(
        select_device("1", 0),
        Err(AppError::Audio("Invalid selection, must be between 1 and 0".to_string()))
    );
    assert_eq!(
        select_device("13", 12),
        Err(AppError::Audio("Invalid selection, must be between 1 and 12".to_string()))
    );
}

#[test]
fn answer_that_is_no_number_is_refused() {
    assert_eq!(select_device("\n", 3), not_a_number());
    assert_eq!(select_device("", 3), not_a_number());
    assert_eq!(select_device("two\n", 3), not_a_number());
    assert_eq!(select_device("-1\n", 3), not_a_number());
    assert_eq!(select_device("1 2\n", 3), not_a_number());
    assert_eq!(select_device("2.0\n", 3), not_a_number());
}
