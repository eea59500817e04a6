use jobex_scraper::digits::{count_in_digit_run, parse_first_digits, DIGIT_RUN};
use jobex_scraper::error::ScrapeError;

#[test]
fn first_digit_run_is_read_as_a_count() {
    assert_eq!(parse_first_digits("No. of results: 58"), Ok(58));
}

#[test]
fn text_without_digits_is_a_parse_error() {
    assert_eq!(parse_first_digits("no digits here"), Err(ScrapeError::ParseError));
    assert_eq!(parse_first_digits(""), Err(ScrapeError::ParseError));
}

#[test]
fn the_first_run_counts_and_only_the_first() {
    assert_eq!(parse_first_digits("58 jobs found in New Zealand"), Ok(58));
    assert_eq!(parse_first_digits("Showing 12 of 345 jobs"), Ok(12));
    assert_eq!(parse_first_digits("abc123def456"), Ok(123));
    assert_eq!(parse_first_digits("1,234 jobs"), Ok(1));
    assert_eq!(parse_first_digits("-5"), Ok(5));
    assert_eq!(parse_first_digits("0 jobs"), Ok(0));
}

#[test]
fn a_run_of_digits_of_another_script_is_found_and_spells_no_count() {
    assert_eq!(parse_first_digits("\u{0663}\u{0664} jobs, 58"), Err(ScrapeError::ParseError));
}

#[test]
fn a_found_run_is_read_as_a_count() {
    assert_eq!(count_in_digit_run(Some("58")), Ok(58));
    assert_eq!(count_in_digit_run(Some("0058")), Ok(58));
    assert_eq!(count_in_digit_run(Some("")), Err(ScrapeError::ParseError));
    assert_eq!(count_in_digit_run(Some("\u{0665}")), Err(ScrapeError::ParseError));
    assert_eq!(count_in_digit_run(None), Err(ScrapeError::ParseError));
}

#[test]
fn a_run_too_long_for_a_count_is_a_parse_error() {
    assert_eq!(
        parse_first_digits("found 99999999999999999999999999 jobs"),
        Err(ScrapeError::ParseError)
    );
    assert_eq!(parse_first_digits(&format!("{} jobs", usize::MAX)), Ok(usize::MAX));
}

#[test]
fn the_pattern_is_one_or_more_digits() {
    assert_eq!(DIGIT_RUN, r"\d+");
}
