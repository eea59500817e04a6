//! The ways in which a scrape or a browser session fails.

use vstd::prelude::*;

verus! {

/// Why no answer could be given. Absence of a count is not among these: a page
/// that shows no count is a success without a value.
#[derive(Clone, Copy, Debug, PartialEq, Eq, Structural)]
pub enum ScrapeError {
    /// The browser could not be launched, used or closed.
    SessionError,
    /// The page did not load the address it was sent to.
    NavigationError,
    /// The element that should hold the count is not in the page.
    ElementNotFound,
    /// Text was there, but it is no count; or a response body is not JSON.
    ParseError,
    /// The request failed in transport, or the server refused it.
    NetworkError,
    /// The response is JSON, but not of the shape that holds the counts.
    JsonShapeError,
    /// The adapter does not support its site yet.
    NotImplemented,
}

} // verus!
