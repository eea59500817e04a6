use jobex_scraper::count::parse_count;
use jobex_scraper::error::ScrapeError;
use jobex_scraper::report::{report_line, write_count};

#[test]
fn a_count_is_reported_with_its_title() {
    assert_eq!(
        report_line("software engineer", &Ok(Some(123))),
        "Job count for software engineer: 123"
    );
    assert_eq!(report_line("recruiter", &Ok(Some(0))), "Job count for recruiter: 0");
    assert_eq!(report_line("", &Ok(Some(7))), "Job count for : 7");
}

#[test]
fn no_count_and_every_error_are_reported_alike() {
    assert_eq!(report_line("accountant", &Ok(None)), "Job count for accountant: None found");
    let errors = [
        ScrapeError::SessionError,
        ScrapeError::NavigationError,
        ScrapeError::ElementNotFound,
        ScrapeError::ParseError,
        ScrapeError::NetworkError,
        ScrapeError::JsonShapeError,
        ScrapeError::NotImplemented,
    ];
    for error in errors {
        assert_eq!(
            report_line("accountant", &Err(error)),
            "Job count for accountant: None found"
        );
    }
}

#[test]
fn counts_are_written_in_base_ten() {
    assert_eq!(write_count(0), "0");
    assert_eq!(write_count(9), "9");
    assert_eq!(write_count(10), "10");
    assert_eq!(write_count(58), "58");
    assert_eq!(write_count(1234), "1234");
    assert_eq!(write_count(1000000), "1000000");
    assert_eq!(write_count(usize::MAX), usize::MAX.to_string());
}

#[test]
fn a_written_count_reads_back() {
    let mut count: usize = 1;
    for _ in 0..usize::BITS {
        for near in [count - 1, count, count.wrapping_add(1)] {
            let text = write_count(near);
            assert_eq!(text, near.to_string());
            assert_eq!(parse_count(&text), Some(near));
        }
        count = count.wrapping_mul(2);
    }
    for near in 0..2000usize {
        assert_eq!(parse_count(&write_count(near)), Some(near));
    }
}
