//! Fetching, without the I/O: what an adapter asks to be fetched, what can
//! come of it, and the course of one fetch, step by step. The host takes the
//! steps, one at a time, and reports how each ended.

use crate::browser::PageSetup;
use crate::error::ScrapeError;
use vstd::prelude::*;

verus! {

/// What is read of an element.
#[derive(Clone, Copy, Debug, PartialEq, Eq, Structural)]
pub enum Content {
    /// Its inner HTML.
    InnerHtml,
    /// Its text, as rendered.
    InnerText,
}

/// What an adapter needs fetched before it can give a count.
#[derive(Debug, PartialEq, Eq)]
pub enum Request {
    /// Set up a fresh page as `page` says and send it to `url`. Once the
    /// navigation's response has settled, and not before, find the element
    /// `container`, inside it the element `nested` where one is named, and
    /// read `content` of the element found last.
    Page { page: PageSetup, url: String, container: String, nested: Option<String>, content: Content },
    /// Send a GET request to `url` and read the whole body as text.
    Get { url: String },
}

/// What a [`Request`] holds.
pub enum RequestModel {
    Page {
        address: Seq<char>,
        user_agent: Seq<char>,
        url: Seq<char>,
        container: Seq<char>,
        nested: Option<Seq<char>>,
        content: Content,
    },
    Get { url: Seq<char> },
}

impl View for Request {
    type V = RequestModel;

    open spec fn view(&self) -> RequestModel {
        match self {
            Request::Page { page, url, container, nested, content } => RequestModel::Page {
                address: page.address@,
                user_agent: page.user_agent@,
                url: url@,
                container: container@,
                nested: match nested {
                    Some(selector) => Some(selector@),
                    None => None,
                },
                content: *content,
            },
            Request::Get { url } => RequestModel::Get { url: url@ },
        }
    }
}

/// What came of a [`Request`].
#[derive(Debug, PartialEq, Eq)]
pub enum Fetched {
    /// No page could be had, or the browser failed while the page was read.
    SessionFailed,
    /// The page did not load its address.
    NavigationFailed,
    /// An element that the request names is not in the page.
    ElementMissing,
    /// The GET request failed, or its response was refused.
    TransportFailed,
    /// What was read: the content of the element, or the body of the
    /// response; `None` where the element has none.
    Text(Option<String>),
}

/// The error that a failed fetch stands for; `None` where text came back.
pub open spec fn failure_of(fetched: Fetched) -> Option<ScrapeError> {
    match fetched {
        Fetched::SessionFailed => Some(ScrapeError::SessionError),
        Fetched::NavigationFailed => Some(ScrapeError::NavigationError),
        Fetched::ElementMissing => Some(ScrapeError::ElementNotFound),
        Fetched::TransportFailed => Some(ScrapeError::NetworkError),
        Fetched::Text(_) => None,
    }
}

/// The text that came back, if any did and it is not empty.
pub open spec fn text_of(fetched: Fetched) -> Option<Seq<char>> {
    match fetched {
        Fetched::Text(Some(text)) => if text@.len() == 0 {
            None
        } else {
            Some(text@)
        },
        _ => None,
    }
}

/// What a response with `status` and `body` counts as: its body where the
/// status is one of success (200 to 299), a failed transport otherwise.
pub open spec fn response_of(status: u16, body: String) -> Fetched {
    if 200 <= status <= 299 {
        Fetched::Text(Some(body))
    } else {
        Fetched::TransportFailed
    }
}

impl Fetched {
    /// The outcome that a response stands for.
    pub fn from_response(status: u16, body: String) -> (fetched: Fetched)
        ensures
            fetched == response_of(status, body),
    {
        if 200 <= status && status <= 299 {
            Fetched::Text(Some(body))
        } else {
            Fetched::TransportFailed
        }
    }

    /// The error of a failed fetch.
    pub fn failure(&self) -> (error: Option<ScrapeError>)
        ensures
            error == failure_of(*self),
    {
        match self {
            Fetched::SessionFailed => Some(ScrapeError::SessionError),
            Fetched::NavigationFailed => Some(ScrapeError::NavigationError),
            Fetched::ElementMissing => Some(ScrapeError::ElementNotFound),
            Fetched::TransportFailed => Some(ScrapeError::NetworkError),
            Fetched::Text(_) => None,
        }
    }

    /// The text that came back, if any did and it is not empty.
    pub fn text(&self) -> (text: Option<&str>)
        ensures
            match text {
                Some(text) => text_of(*self) == Some(text@),
                None => text_of(*self) is None,
            },
    {
        match self {
            Fetched::Text(Some(text)) => {
                let text = text.as_str();
                if text.is_empty() {
                    None
                } else {
                    Some(text)
                }
            },
            _ => None,
        }
    }
}

/// How many seconds the host gives a navigation, the wait for its response,
/// or a GET request, before it reports the step as failed.
pub const STEP_SECONDS: u64 = 30;

/// A step of a fetch, for the host to take. What it is taken on (the address,
/// the elements, the content to read) stands in the request.
#[derive(Clone, Copy, Debug, PartialEq, Eq, Structural)]
pub enum Action {
    /// Open a fresh page, set up as the request says.
    OpenPage,
    /// Send the page to the request's address.
    Navigate,
    /// Wait until the response to the navigation has settled.
    AwaitResponse,
    /// Find the request's container in the page.
    FindContainer,
    /// Find the request's nested element inside the container.
    FindNested,
    /// Read the request's content of the element found last.
    Read,
    /// Close the page.
    ClosePage,
    /// Send a GET request to the request's address and read the whole body.
    Get,
}

/// How a step ended.
#[derive(Debug, PartialEq, Eq)]
pub enum Event {
    /// It was taken, and there is nothing to hand back.
    Succeeded,
    /// It could not be taken, or did not end in time.
    Failed,
    /// What a [`Action::Read`] read; `None` where the element has no such
    /// content.
    Text(Option<String>),
    /// What a [`Action::Get`] was answered: the status, and the body.
    Response(u16, String),
}

/// Where a fetch stands: the step that the host is taking.
#[derive(Debug, PartialEq, Eq)]
pub enum Stage {
    Opening,
    Navigating,
    Awaiting,
    Finding,
    FindingNested,
    Reading,
    /// The page is being closed; the fetch has come to what this holds.
    Closing(Fetched),
    Getting,
}

/// What follows a step.
#[derive(Debug, PartialEq, Eq)]
pub enum Progress {
    /// Another step, with the stage that the fetch is at while it is taken.
    Next(Stage, Action),
    /// Nothing: the fetch has ended, with this outcome.
    Finished(Fetched),
}

impl Stage {
    /// A page is open while the fetch is at this stage.
    pub open spec fn holds_page(self) -> bool {
        !(self is Opening || self is Getting)
    }
}

/// Whether the request names an element inside its container.
pub open spec fn names_nested(request: Request) -> bool {
    request matches Request::Page { nested: Some(_), .. }
}

/// The first step of the fetch for `request`: a page is opened, or the GET
/// request is sent.
pub open spec fn first_step(request: Request) -> (Stage, Action) {
    match request {
        Request::Page { .. } => (Stage::Opening, Action::OpenPage),
        Request::Get { .. } => (Stage::Getting, Action::Get),
    }
}

/// Closes the page, with `outcome` as what the fetch has come to.
pub open spec fn close_with(outcome: Fetched) -> Progress {
    Progress::Next(Stage::Closing(outcome), Action::ClosePage)
}

/// What follows the step of `stage`, which ended in `event`.
///
/// A page is opened, sent to its address, and waited for; then the container
/// is found, then the nested element if one is named, then the content is
/// read. A step that hands back anything but what it is there for has
/// failed. The first step that fails decides the outcome: no page is a failed
/// session, a page that does not load is a failed navigation, an element that
/// is not there is a missing element, and content that cannot be read is a
/// failed session. Once a page is open, it is closed before the fetch ends,
/// whatever happened; how the closing ends changes nothing.
///
/// A GET request ends the fetch at once: with what its response counts as, or
/// as a failed transport.
pub open spec fn progress(request: Request, stage: Stage, event: Event) -> Progress {
    match stage {
        Stage::Opening => match event {
            Event::Succeeded => Progress::Next(Stage::Navigating, Action::Navigate),
            _ => Progress::Finished(Fetched::SessionFailed),
        },
        Stage::Navigating => match event {
            Event::Succeeded => Progress::Next(Stage::Awaiting, Action::AwaitResponse),
            _ => close_with(Fetched::NavigationFailed),
        },
        Stage::Awaiting => match event {
            Event::Succeeded => Progress::Next(Stage::Finding, Action::FindContainer),
            _ => close_with(Fetched::NavigationFailed),
        },
        Stage::Finding => match event {
            Event::Succeeded => if names_nested(request) {
                Progress::Next(Stage::FindingNested, Action::FindNested)
            } else {
                Progress::Next(Stage::Reading, Action::Read)
            },
            _ => close_with(Fetched::ElementMissing),
        },
        Stage::FindingNested => match event {
            Event::Succeeded => Progress::Next(Stage::Reading, Action::Read),
            _ => close_with(Fetched::ElementMissing),
        },
        Stage::Reading => match event {
            Event::Text(text) => close_with(Fetched::Text(text)),
            _ => close_with(Fetched::SessionFailed),
        },
        Stage::Closing(outcome) => Progress::Finished(outcome),
        Stage::Getting => match event {
            Event::Response(status, body) => Progress::Finished(response_of(status, body)),
            _ => Progress::Finished(Fetched::TransportFailed),
        },
    }
}

/// Each step on a page is taken only once the step before it has succeeded:
/// the page is sent off only once it is open, waited for only once it was
/// sent, searched only once the response has settled, and read only once the
/// element is found.
pub proof fn lemma_steps_come_in_order(request: Request, stage: Stage, event: Event)
    ensures
        match progress(request, stage, event) {
            Progress::Next(_, Action::Navigate) => stage is Opening && event is Succeeded,
            Progress::Next(_, Action::AwaitResponse) => stage is Navigating && event is Succeeded,
            Progress::Next(_, Action::FindContainer) => stage is Awaiting && event is Succeeded,
            Progress::Next(_, Action::FindNested) => stage is Finding && event is Succeeded
                && names_nested(request),
            Progress::Next(_, Action::Read) => event is Succeeded && (stage is FindingNested || (
                stage is Finding && !names_nested(request))),
            Progress::Next(_, Action::OpenPage) => false,
            Progress::Next(_, Action::Get) => false,
            _ => true,
        },
{
}

/// A page that is open is closed before the fetch ends: while one is open the
/// fetch goes on, and the step that brings the outcome is the closing of the
/// page. Closing is the last step, and the outcome is the one it was begun
/// with.
pub proof fn lemma_page_is_closed(request: Request, stage: Stage, event: Event)
    ensures
        stage.holds_page() && !(stage is Closing) ==> progress(request, stage, event) is Next,
        progress(request, stage, event) matches Progress::Next(next, action) ==> next.holds_page()
            && (next is Closing <==> action == Action::ClosePage),
        stage matches Stage::Closing(outcome) ==> progress(request, stage, event)
            == Progress::Finished(outcome),
{
}

/// A step that failed decides the outcome, and only the closing of the page
/// follows it.
pub proof fn lemma_first_failure_decides(request: Request, stage: Stage)
    ensures
        progress(request, stage, Event::Failed) == match stage {
            Stage::Opening => Progress::Finished(Fetched::SessionFailed),
            Stage::Navigating => close_with(Fetched::NavigationFailed),
            Stage::Awaiting => close_with(Fetched::NavigationFailed),
            Stage::Finding => close_with(Fetched::ElementMissing),
            Stage::FindingNested => close_with(Fetched::ElementMissing),
            Stage::Reading => close_with(Fetched::SessionFailed),
            Stage::Closing(outcome) => Progress::Finished(outcome),
            Stage::Getting => Progress::Finished(Fetched::TransportFailed),
        },
{
}

/// A fetch in which every step succeeds takes the steps of its request in
/// their order, closes the page, and ends with the text that was read.
pub proof fn lemma_page_fetch_runs_its_course(request: Request, text: Option<String>)
    requires
        request is Page,
    ensures
        first_step(request) == (Stage::Opening, Action::OpenPage),
        progress(request, Stage::Opening, Event::Succeeded) == Progress::Next(
            Stage::Navigating,
            Action::Navigate,
        ),
        progress(request, Stage::Navigating, Event::Succeeded) == Progress::Next(
            Stage::Awaiting,
            Action::AwaitResponse,
        ),
        progress(request, Stage::Awaiting, Event::Succeeded) == Progress::Next(
            Stage::Finding,
            Action::FindContainer,
        ),
        names_nested(request) ==> progress(request, Stage::Finding, Event::Succeeded)
            == Progress::Next(Stage::FindingNested, Action::FindNested) && progress(
            request,
            Stage::FindingNested,
            Event::Succeeded,
        ) == Progress::Next(Stage::Reading, Action::Read),
        !names_nested(request) ==> progress(request, Stage::Finding, Event::Succeeded)
            == Progress::Next(Stage::Reading, Action::Read),
        progress(request, Stage::Reading, Event::Text(text)) == Progress::Next(
            Stage::Closing(Fetched::Text(text)),
            Action::ClosePage,
        ),
        progress(request, Stage::Closing(Fetched::Text(text)), Event::Succeeded)
            == Progress::Finished(Fetched::Text(text)),
{
}

/// Begins the fetch for `request`.
pub fn begin(request: &Request) -> (first: (Stage, Action))
    ensures
        first == first_step(*request),
{
    match request {
        Request::Page { .. } => (Stage::Opening, Action::OpenPage),
        Request::Get { .. } => (Stage::Getting, Action::Get),
    }
}

/// Takes the fetch on: from the stage it is at and the way that stage's step
/// ended, to the next step or to the outcome.
pub fn advance(request: &Request, stage: Stage, event: Event) -> (next: Progress)
    ensures
        next == progress(*request, stage, event),
{
    match stage {
        Stage::Opening => match event {
            Event::Succeeded => Progress::Next(Stage::Navigating, Action::Navigate),
            _ => Progress::Finished(Fetched::SessionFailed),
        },
        Stage::Navigating => match event {
            Event::Succeeded => Progress::Next(Stage::Awaiting, Action::AwaitResponse),
            _ => Progress::Next(Stage::Closing(Fetched::NavigationFailed), Action::ClosePage),
        },
        Stage::Awaiting => match event {
            Event::Succeeded => Progress::Next(Stage::Finding, Action::FindContainer),
            _ => Progress::Next(Stage::Closing(Fetched::NavigationFailed), Action::ClosePage),
        },
        Stage::Finding => match event {
            Event::Succeeded => match request {
                Request::Page { nested: Some(_), .. } => Progress::Next(
                    Stage::FindingNested,
                    Action::FindNested,
                ),
                _ => Progress::Next(Stage::Reading, Action::Read),
            },
            _ => Progress::Next(Stage::Closing(Fetched::ElementMissing), Action::ClosePage),
        },
        Stage::FindingNested => match event {
            Event::Succeeded => Progress::Next(Stage::Reading, Action::Read),
            _ => Progress::Next(Stage::Closing(Fetched::ElementMissing), Action::ClosePage),
        },
        Stage::Reading => match event {
            Event::Text(text) => Progress::Next(
                Stage::Closing(Fetched::Text(text)),
                Action::ClosePage,
            ),
            _ => Progress::Next(Stage::Closing(Fetched::SessionFailed), Action::ClosePage),
        },
        Stage::Closing(outcome) => Progress::Finished(outcome),
        Stage::Getting => match event {
            Event::Response(status, body) => Progress::Finished(
                Fetched::from_response(status, body),
            ),
            _ => Progress::Finished(Fetched::TransportFailed),
        },
    }
}

} // verus!
