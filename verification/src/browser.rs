//! The life of a browser session: what the host is to do at each step of
//! starting it, opening pages in it and stopping it, and what each outcome
//! means. The host performs the steps; nothing here touches a browser.

use crate::error::ScrapeError;
use vstd::prelude::*;

verus! {

/// The width of the browser window, in pixels.
pub const WINDOW_WIDTH: u32 = 1920;

/// The height of the browser window, in pixels.
pub const WINDOW_HEIGHT: u32 = 1080;

/// The address that a fresh page is opened at.
pub const BLANK_PAGE: &'static str = "about:blank";

/// The user agent that every page presents.
pub const USER_AGENT: &'static str =
    "Mozilla/5.0 (Macintosh; Intel Mac OS X 10_15_7) AppleWebKit/605.1.15 (KHTML, like Gecko) Version/16.6 Safari/605.1.15";

/// Where a session stands. It runs until it is told to stop; stopping takes
/// three steps, and the session is stopped once they are done or one failed.
#[derive(Clone, Copy, Debug, PartialEq, Eq, Structural)]
pub enum SessionState {
    /// Pages can be opened.
    Running,
    /// The browser was told to close.
    Closing,
    /// The browser's process is awaited.
    Exiting,
    /// The worker that drains the browser's events is joined.
    Joining,
    /// Nothing more happens in this session.
    Stopped,
}

/// A step of stopping a session, for the host to perform.
#[derive(Clone, Copy, Debug, PartialEq, Eq, Structural)]
pub enum ShutdownStep {
    /// Tell the browser to close.
    Close,
    /// Wait for the browser's process to exit.
    AwaitExit,
    /// Join the worker that drains the browser's events.
    JoinWorker,
}

/// How a fresh page is set up: opened at `address`, then given `user_agent`
/// as its identity.
#[derive(Clone, Copy, Debug, PartialEq, Eq)]
pub struct PageSetup {
    pub address: &'static str,
    pub user_agent: &'static str,
}

/// One browser session.
#[derive(Debug)]
pub struct Browser {
    state: SessionState,
}

/// What stopping does in `state`, told by `last` how the step handed out
/// before ended (`None`: no step was handed out yet): the state after, and the
/// next step, or the end (`Ok(None)`), or the failure.
///
/// The steps come in the order close, await exit, join. The first step that
/// fails ends the session with a `SessionError`, and no step follows it. A
/// report that fits no step in flight, or any call on a stopped session, is a
/// `SessionError` that changes nothing.
pub open spec fn shutdown(state: SessionState, last: Option<bool>) -> (
    SessionState,
    Result<Option<ShutdownStep>, ScrapeError>,
) {
    match (state, last) {
        (SessionState::Running, None) => (SessionState::Closing, Ok(Some(ShutdownStep::Close))),
        (SessionState::Closing, Some(true)) => (
            SessionState::Exiting,
            Ok(Some(ShutdownStep::AwaitExit)),
        ),
        (SessionState::Exiting, Some(true)) => (
            SessionState::Joining,
            Ok(Some(ShutdownStep::JoinWorker)),
        ),
        (SessionState::Joining, Some(true)) => (SessionState::Stopped, Ok(None)),
        (SessionState::Closing, Some(false)) => (
            SessionState::Stopped,
            Err(ScrapeError::SessionError),
        ),
        (SessionState::Exiting, Some(false)) => (
            SessionState::Stopped,
            Err(ScrapeError::SessionError),
        ),
        (SessionState::Joining, Some(false)) => (
            SessionState::Stopped,
            Err(ScrapeError::SessionError),
        ),
        _ => (state, Err(ScrapeError::SessionError)),
    }
}

/// Stopping a running session goes through close, await exit and join, in
/// that order, as long as each step succeeds, and leaves the session stopped.
pub proof fn lemma_shutdown_order()
    ensures
        shutdown(SessionState::Running, None) == (
            SessionState::Closing,
            Ok::<Option<ShutdownStep>, ScrapeError>(Some(ShutdownStep::Close)),
        ),
        shutdown(SessionState::Closing, Some(true)) == (
            SessionState::Exiting,
            Ok::<Option<ShutdownStep>, ScrapeError>(Some(ShutdownStep::AwaitExit)),
        ),
        shutdown(SessionState::Exiting, Some(true)) == (
            SessionState::Joining,
            Ok::<Option<ShutdownStep>, ScrapeError>(Some(ShutdownStep::JoinWorker)),
        ),
        shutdown(SessionState::Joining, Some(true)) == (
            SessionState::Stopped,
            Ok::<Option<ShutdownStep>, ScrapeError>(None),
        ),
{
}

/// A step that failed ends the session at once: it is stopped, the failure
/// is a `SessionError`, and no step is handed out.
pub proof fn lemma_failed_step_stops(state: SessionState)
    requires
        state == SessionState::Closing || state == SessionState::Exiting || state
            == SessionState::Joining,
    ensures
        shutdown(state, Some(false)) == (
            SessionState::Stopped,
            Err::<Option<ShutdownStep>, ScrapeError>(ScrapeError::SessionError),
        ),
{
}

/// Stopping never brings a session back: one that does not run before a
/// call does not run after it, and a stopped one stays stopped and hands out
/// no step.
pub proof fn lemma_no_way_back(state: SessionState, last: Option<bool>)
    ensures
        shutdown(state, last).0 == SessionState::Running ==> state == SessionState::Running,
        state == SessionState::Stopped ==> shutdown(state, last) == (
            SessionState::Stopped,
            Err::<Option<ShutdownStep>, ScrapeError>(ScrapeError::SessionError),
        ),
{
}

impl Browser {
    /// Where the session stands.
    pub closed spec fn state(&self) -> SessionState {
        self.state
    }

    /// Where the session stands.
    pub fn current_state(&self) -> (state: SessionState)
        ensures
            state == self.state(),
    {
        self.state
    }

    /// The session that a launch of the browser, with a window of
    /// [`WINDOW_WIDTH`] by [`WINDOW_HEIGHT`], has given: a running one where
    /// the launch succeeded, a `SessionError` where it failed.
    pub fn start_context(launched: bool) -> (session: Result<Browser, ScrapeError>)
        ensures
            match session {
                Ok(browser) => launched && browser.state() == SessionState::Running,
                Err(error) => !launched && error == ScrapeError::SessionError,
            },
    {
        if launched {
            Ok(Browser { state: SessionState::Running })
        } else {
            Err(ScrapeError::SessionError)
        }
    }

    /// Whether the worker that drains the browser's events goes on after
    /// `event`: `Some(true)` is an event delivered, `Some(false)` an error in
    /// its place, `None` the end of the stream. It goes on after a delivered
    /// event and ends, for good, at the first error or at the end.
    pub fn keeps_draining(event: Option<bool>) -> (goes_on: bool)
        ensures
            goes_on == (event == Some(true)),
    {
        match event {
            Some(delivered) => delivered,
            None => false,
        }
    }

    /// Grants a page: how the host is to set it up. Only a running session
    /// grants one; any other answers with a `SessionError`.
    pub fn create_page(&self) -> (page: Result<PageSetup, ScrapeError>)
        ensures
            match page {
                Ok(setup) => self.state() == SessionState::Running && setup.address@
                    == BLANK_PAGE@ && setup.user_agent@ == USER_AGENT@,
                Err(error) => self.state() != SessionState::Running && error
                    == ScrapeError::SessionError,
            },
    {
        match self.state {
            SessionState::Running => Ok(PageSetup { address: BLANK_PAGE, user_agent: USER_AGENT }),
            _ => Err(ScrapeError::SessionError),
        }
    }

    /// Takes the shutdown one step on, as [`shutdown`] says. The first call
    /// passes `None`; each later one passes whether the step it was handed
    /// succeeded.
    pub fn stop_context(&mut self, last: Option<bool>) -> (next: Result<
        Option<ShutdownStep>,
        ScrapeError,
    >)
        ensures
            (final(self).state(), next) == shutdown(old(self).state(), last),
    {
        match (self.state, last) {
            (SessionState::Running, None) => {
                self.state = SessionState::Closing;
                Ok(Some(ShutdownStep::Close))
            },
            (SessionState::Closing, Some(true)) => {
                self.state = SessionState::Exiting;
                Ok(Some(ShutdownStep::AwaitExit))
            },
            (SessionState::Exiting, Some(true)) => {
                self.state = SessionState::Joining;
                Ok(Some(ShutdownStep::JoinWorker))
            },
            (SessionState::Joining, Some(true)) => {
                self.state = SessionState::Stopped;
                Ok(None)
            },
            (SessionState::Closing, Some(false)) | (SessionState::Exiting, Some(false)) | (
                SessionState::Joining,
                Some(false),
            ) => {
                self.state = SessionState::Stopped;
                Err(ScrapeError::SessionError)
            },
            _ => Err(ScrapeError::SessionError),
        }
    }
}

} // verus!
