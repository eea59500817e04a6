use jobex_scraper::browser::{
    Browser, SessionState, ShutdownStep, BLANK_PAGE, USER_AGENT, WINDOW_HEIGHT, WINDOW_WIDTH,
};
use jobex_scraper::error::ScrapeError;

#[test]
fn the_window_is_full_hd() {
    assert_eq!(WINDOW_WIDTH, 1920);
    assert_eq!(WINDOW_HEIGHT, 1080);
}

#[test]
fn a_launched_browser_is_a_running_session() {
    let browser = Browser::start_context(true).unwrap();
    assert_eq!(browser.current_state(), SessionState::Running);
}

#[test]
fn a_failed_launch_is_a_session_error() {
    assert_eq!(Browser::start_context(false).err(), Some(ScrapeError::SessionError));
}

#[test]
fn a_running_session_grants_pages_with_the_fixed_identity() {
    let browser = Browser::start_context(true).unwrap();
    let first = browser.create_page().unwrap();
    let second = browser.create_page().unwrap();
    assert_eq!(first.address, "about:blank");
    assert_eq!(first.address, BLANK_PAGE);
    assert_eq!(first.user_agent, USER_AGENT);
    assert_eq!(
        first.user_agent,
        "Mozilla/5.0 (Macintosh; Intel Mac OS X 10_15_7) AppleWebKit/605.1.15 (KHTML, like Gecko) Version/16.6 Safari/605.1.15"
    );
    assert_eq!(first, second);
}

#[test]
fn stopping_closes_then_awaits_then_joins() {
    let mut browser = Browser::start_context(true).unwrap();
    assert_eq!(browser.stop_context(None), Ok(Some(ShutdownStep::Close)));
    assert_eq!(browser.current_state(), SessionState::Closing);
    assert_eq!(browser.stop_context(Some(true)), Ok(Some(ShutdownStep::AwaitExit)));
    assert_eq!(browser.current_state(), SessionState::Exiting);
    assert_eq!(browser.stop_context(Some(true)), Ok(Some(ShutdownStep::JoinWorker)));
    assert_eq!(browser.current_state(), SessionState::Joining);
    assert_eq!(browser.stop_context(Some(true)), Ok(None));
    assert_eq!(browser.current_state(), SessionState::Stopped);
}

#[test]
fn the_first_failed_step_ends_the_shutdown() {
    for failing in 0..3 {
        let mut browser = Browser::start_context(true).unwrap();
        assert!(browser.stop_context(None).is_ok());
        for _ in 0..failing {
            assert!(matches!(browser.stop_context(Some(true)), Ok(Some(_))));
        }
        assert_eq!(browser.stop_context(Some(false)), Err(ScrapeError::SessionError));
        assert_eq!(browser.current_state(), SessionState::Stopped);
        assert_eq!(browser.stop_context(Some(true)), Err(ScrapeError::SessionError));
        assert_eq!(browser.current_state(), SessionState::Stopped);
    }
}

#[test]
fn no_page_is_granted_once_stopping_has_begun() {
    let mut browser = Browser::start_context(true).unwrap();
    assert!(browser.create_page().is_ok());
    assert!(browser.stop_context(None).is_ok());
    assert_eq!(browser.create_page().err(), Some(ScrapeError::SessionError));
    while let Ok(Some(_)) = browser.stop_context(Some(true)) {
        assert_eq!(browser.create_page().err(), Some(ScrapeError::SessionError));
    }
    assert_eq!(browser.current_state(), SessionState::Stopped);
    assert_eq!(browser.create_page().err(), Some(ScrapeError::SessionError));
}

#[test]
fn a_stopped_session_stays_stopped() {
    let mut browser = Browser::start_context(true).unwrap();
    assert!(browser.stop_context(None).is_ok());
    assert!(browser.stop_context(Some(false)).is_err());
    for last in [None, Some(true), Some(false)] {
        assert_eq!(browser.stop_context(last), Err(ScrapeError::SessionError));
        assert_eq!(browser.current_state(), SessionState::Stopped);
    }
}

#[test]
fn a_report_without_a_step_in_flight_changes_nothing() {
    let mut browser = Browser::start_context(true).unwrap();
    assert_eq!(browser.stop_context(Some(true)), Err(ScrapeError::SessionError));
    assert_eq!(browser.current_state(), SessionState::Running);
    assert_eq!(browser.stop_context(Some(false)), Err(ScrapeError::SessionError));
    assert_eq!(browser.current_state(), SessionState::Running);
    assert!(browser.create_page().is_ok());
    assert_eq!(browser.stop_context(None), Ok(Some(ShutdownStep::Close)));
    assert_eq!(browser.stop_context(None), Err(ScrapeError::SessionError));
    assert_eq!(browser.current_state(), SessionState::Closing);
}

#[test]
fn the_worker_drains_until_the_first_error_or_the_end() {
    assert!(Browser::keeps_draining(Some(true)));
    assert!(!Browser::keeps_draining(Some(false)));
    assert!(!Browser::keeps_draining(None));
}
