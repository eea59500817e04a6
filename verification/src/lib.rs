//! Job counts from job-listing sites, without the I/O: what to fetch for a job
//! title, how a fetch runs its course, how a count is read out of the text or
//! the JSON that came back, and how a browser session is started and stopped.
//! A host program does the fetching and drives the browser.

pub mod browser;
pub mod count;
pub mod digits;
pub mod error;
pub mod fetch;
pub mod json;
pub mod query;
pub mod report;
pub mod scrapers;
