use jobex_scraper::browser::{Browser, PageSetup, BLANK_PAGE, USER_AGENT};
use jobex_scraper::fetch::{
    advance, begin, Action, Content, Event, Fetched, Progress, Request, Stage, STEP_SECONDS,
};

fn page_request(nested: Option<&str>) -> Request {
    Request::Page {
        page: PageSetup { address: BLANK_PAGE, user_agent: USER_AGENT },
        url: "https://example.org/jobs?q=web+developer".to_string(),
        container: "div.count".to_string(),
        nested: nested.map(|selector| selector.to_string()),
        content: Content::InnerHtml,
    }
}

fn get_request() -> Request {
    Request::Get { url: "https://example.org/counts?keywords=web+developer".to_string() }
}

fn text(content: &str) -> Option<String> {
    Some(content.to_string())
}

/// Runs a fetch in which the steps end as `events` say, one after the other,
/// and gives the steps that were taken and the outcome.
fn run(request: &Request, events: Vec<Event>) -> (Vec<Action>, Option<Fetched>) {
    let (mut stage, first) = begin(request);
    let mut taken = vec![first];
    for event in events {
        match advance(request, stage, event) {
            Progress::Next(next, action) => {
                stage = next;
                taken.push(action);
            }
            Progress::Finished(fetched) => return (taken, Some(fetched)),
        }
    }
    (taken, None)
}

#[test]
fn a_page_with_a_nested_element_is_fetched_in_seven_steps() {
    let events = vec![
        Event::Succeeded,
        Event::Succeeded,
        Event::Succeeded,
        Event::Succeeded,
        Event::Succeeded,
        Event::Text(text("123 jobs")),
        Event::Succeeded,
    ];
    assert_eq!(
        run(&page_request(Some("span")), events),
        (
            vec![
                Action::OpenPage,
                Action::Navigate,
                Action::AwaitResponse,
                Action::FindContainer,
                Action::FindNested,
                Action::Read,
                Action::ClosePage,
            ],
            Some(Fetched::Text(text("123 jobs")))
        )
    );
}

#[test]
fn a_page_without_a_nested_element_is_read_at_its_container() {
    let events = vec![
        Event::Succeeded,
        Event::Succeeded,
        Event::Succeeded,
        Event::Succeeded,
        Event::Text(None),
        Event::Failed,
    ];
    assert_eq!(
        run(&page_request(None), events),
        (
            vec![
                Action::OpenPage,
                Action::Navigate,
                Action::AwaitResponse,
                Action::FindContainer,
                Action::Read,
                Action::ClosePage,
            ],
            Some(Fetched::Text(None))
        )
    );
}

#[test]
fn a_page_that_cannot_be_opened_is_a_failed_session() {
    assert_eq!(
        run(&page_request(Some("span")), vec![Event::Failed]),
        (vec![Action::OpenPage], Some(Fetched::SessionFailed))
    );
}

#[test]
fn the_first_failed_step_decides_and_the_page_is_closed() {
    let outcomes = [
        Fetched::NavigationFailed,
        Fetched::NavigationFailed,
        Fetched::ElementMissing,
        Fetched::ElementMissing,
        Fetched::SessionFailed,
    ];
    for (failing, outcome) in outcomes.into_iter().enumerate() {
        let mut events = Vec::new();
        for _ in 0..failing + 1 {
            events.push(Event::Succeeded);
        }
        events.push(Event::Failed);
        events.push(Event::Succeeded);
        let (taken, fetched) = run(&page_request(Some("span")), events);
        assert_eq!(taken.len(), failing + 3);
        assert_eq!(taken.last(), Some(&Action::ClosePage));
        assert_eq!(taken.iter().filter(|action| **action == Action::ClosePage).count(), 1);
        assert_eq!(fetched, Some(outcome));
    }
}

#[test]
fn a_step_that_hands_back_the_wrong_thing_has_failed() {
    let request = page_request(None);
    assert_eq!(
        advance(&request, Stage::Navigating, Event::Text(text("123 jobs"))),
        Progress::Next(Stage::Closing(Fetched::NavigationFailed), Action::ClosePage)
    );
    assert_eq!(
        advance(&request, Stage::Reading, Event::Succeeded),
        Progress::Next(Stage::Closing(Fetched::SessionFailed), Action::ClosePage)
    );
    assert_eq!(
        advance(&request, Stage::Reading, Event::Response(200, "123 jobs".to_string())),
        Progress::Next(Stage::Closing(Fetched::SessionFailed), Action::ClosePage)
    );
    assert_eq!(
        advance(&get_request(), Stage::Getting, Event::Text(text("{}"))),
        Progress::Finished(Fetched::TransportFailed)
    );
    assert_eq!(
        advance(&get_request(), Stage::Getting, Event::Succeeded),
        Progress::Finished(Fetched::TransportFailed)
    );
}

#[test]
fn closing_ends_the_fetch_however_it_ends() {
    let request = page_request(None);
    for event in [Event::Succeeded, Event::Failed, Event::Text(None)] {
        assert_eq!(
            advance(&request, Stage::Closing(Fetched::Text(text("58 jobs"))), event),
            Progress::Finished(Fetched::Text(text("58 jobs")))
        );
    }
}

#[test]
fn a_get_request_is_one_step() {
    assert_eq!(begin(&get_request()), (Stage::Getting, Action::Get));
    assert_eq!(
        run(&get_request(), vec![Event::Response(200, "{}".to_string())]),
        (vec![Action::Get], Some(Fetched::Text(text("{}"))))
    );
    assert_eq!(
        run(&get_request(), vec![Event::Response(503, "{}".to_string())]),
        (vec![Action::Get], Some(Fetched::TransportFailed))
    );
    assert_eq!(
        run(&get_request(), vec![Event::Failed]),
        (vec![Action::Get], Some(Fetched::TransportFailed))
    );
}

#[test]
fn the_request_of_an_adapter_begins_with_a_page() {
    let browser = Browser::start_context(true).unwrap();
    let setup = browser.create_page().unwrap();
    let request = Request::Page {
        page: setup,
        url: String::new(),
        container: String::new(),
        nested: None,
        content: Content::InnerText,
    };
    assert_eq!(begin(&request), (Stage::Opening, Action::OpenPage));
}

#[test]
fn a_step_is_given_half_a_minute() {
    assert_eq!(STEP_SECONDS, 30);
}
