use jobex_scraper::count::{chars_of, is_whitespace_char, parse_count, parse_leading_count};
use jobex_scraper::error::ScrapeError;

#[test]
fn leading_token_is_read_as_a_count() {
    assert_eq!(parse_leading_count("123 jobs"), Ok(123));
}

#[test]
fn thousands_separator_is_not_stripped() {
    assert_eq!(parse_leading_count("1,234 jobs"), Err(ScrapeError::ParseError));
}

#[test]
fn leading_token_stands_alone_or_after_whitespace() {
    assert_eq!(parse_leading_count("7"), Ok(7));
    assert_eq!(parse_leading_count("  42 jobs"), Ok(42));
    assert_eq!(parse_leading_count("\n\t42\tjobs\n"), Ok(42));
    assert_eq!(parse_leading_count("\u{00A0}12\u{3000}jobs"), Ok(12));
    assert_eq!(parse_leading_count("007 jobs"), Ok(7));
    assert_eq!(parse_leading_count("0"), Ok(0));
}

#[test]
fn leading_token_that_is_no_number_is_a_parse_error() {
    assert_eq!(parse_leading_count("jobs 123"), Err(ScrapeError::ParseError));
    assert_eq!(parse_leading_count("123jobs"), Err(ScrapeError::ParseError));
    assert_eq!(parse_leading_count("12.5 jobs"), Err(ScrapeError::ParseError));
    assert_eq!(parse_leading_count("-3 jobs"), Err(ScrapeError::ParseError));
    assert_eq!(parse_leading_count("<b>12</b> jobs"), Err(ScrapeError::ParseError));
    assert_eq!(parse_leading_count("\u{0663}\u{0664} jobs"), Err(ScrapeError::ParseError));
}

#[test]
fn text_without_a_token_is_a_parse_error() {
    assert_eq!(parse_leading_count(""), Err(ScrapeError::ParseError));
    assert_eq!(parse_leading_count("   \n\t "), Err(ScrapeError::ParseError));
}

#[test]
fn a_count_too_large_for_the_machine_is_a_parse_error() {
    let largest = usize::MAX.to_string();
    assert_eq!(parse_count(&largest), Some(usize::MAX));
    assert_eq!(parse_leading_count(&format!("{} jobs", largest)), Ok(usize::MAX));
    assert_eq!(parse_count(&format!("{}0", largest)), None);
    assert_eq!(parse_count("18446744073709551616"), None);
    assert_eq!(
        parse_leading_count("99999999999999999999999999 jobs"),
        Err(ScrapeError::ParseError)
    );
}

#[test]
fn plus_sign_may_lead_a_count() {
    assert_eq!(parse_count("+7"), Some(7));
    assert_eq!(parse_count("+"), None);
    assert_eq!(parse_count("++7"), None);
    assert_eq!(parse_count("7+"), None);
    assert_eq!(parse_count(""), None);
    assert_eq!(parse_count("-7"), None);
    assert_eq!(parse_count(" 7"), None);
    assert_eq!(parse_leading_count("+15 jobs"), Ok(15));
}

#[test]
fn tokens_are_read_as_the_standard_library_reads_them() {
    let tokens = [
        "0", "1", "9", "10", "123", "00012", "+0", "+12", "-12", "", "+", "-", "1,234", "1 2",
        "12a", "a12", "1.0", "1e3", "0x10", "١٢٣", "１２", "4294967295", "4294967296",
        "18446744073709551615", "18446744073709551616", "340282366920938463463374607431768211456",
    ];
    for token in tokens {
        assert_eq!(parse_count(token), token.parse::<usize>().ok(), "token {:?}", token);
    }
}

#[test]
fn phrases_are_read_as_their_first_token_is() {
    let phrases = [
        "123 jobs", "1,234 jobs", "", " ", "12", " 12", "12 ", "\t12\n", "jobs", "12\u{00A0}jobs",
        "12\u{2003}jobs", "12\u{200B}jobs", "\u{FEFF}12 jobs", "+3 new jobs", "3+ jobs",
    ];
    for phrase in phrases {
        let expected = match phrase.split_whitespace().next() {
            Some(token) => token.trim().parse::<usize>().map_err(|_| ScrapeError::ParseError),
            None => Err(ScrapeError::ParseError),
        };
        assert_eq!(parse_leading_count(phrase), expected, "phrase {:?}", phrase);
    }
}

#[test]
fn whitespace_is_what_unicode_says_it_is() {
    for code in 0u32..=0x10FFFF {
        if let Some(c) = char::from_u32(code) {
            assert_eq!(is_whitespace_char(c), c.is_whitespace(), "U+{:04X}", code);
        }
    }
}

#[test]
fn characters_come_out_in_order() {
    assert_eq!(chars_of(""), Vec::<char>::new());
    assert_eq!(chars_of("a\u{0101} +"), vec!['a', '\u{0101}', ' ', '+']);
}
