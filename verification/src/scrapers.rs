//! The adapters, one per site. Each says what is to be fetched for a job title
//! and reads the job count out of what came back. The fetching itself, in a
//! browser page or over HTTP, is the host's.

use crate::browser::{Browser, SessionState, BLANK_PAGE, USER_AGENT};
use crate::count::{leading_count_of, parse_leading_count};
use crate::digits::{first_digits_count_of, parse_first_digits};
use crate::error::ScrapeError;
use crate::fetch::{failure_of, text_of, Content, Fetched, Request, RequestModel};
use crate::json::{body_count_of, count_in_body};
use crate::query::{convert_job_title_to_query_string, encoded, PERCENT_TWENTY, PLUS};
use vstd::prelude::*;

verus! {

/// The one capability of every adapter: the job count for a title. It comes
/// in two halves, with the fetch between them.
pub trait Scraper {
    /// What the adapter asks for, for a job title.
    spec fn plan(&self, job_title: Seq<char>) -> Result<RequestModel, ScrapeError>;

    /// The adapter's answer to what came back: a count, no count, or an error.
    spec fn answer(&self, fetched: Fetched) -> Result<Option<usize>, ScrapeError>;

    /// Says what is to be fetched for `job_title`.
    fn request(&self, job_title: &str) -> (request: Result<Request, ScrapeError>)
        ensures
            match request {
                Ok(request) => self.plan(job_title@) == Ok::<RequestModel, ScrapeError>(request@),
                Err(error) => self.plan(job_title@) == Err::<RequestModel, ScrapeError>(error),
            },
    ;

    /// Reads the job count out of what was fetched.
    fn get_job_count(&self, fetched: &Fetched) -> (count: Result<Option<usize>, ScrapeError>)
        ensures
            count == self.answer(*fetched),
    ;
}

/// `prefix` followed by `query`.
fn address(prefix: &str, query: String) -> (url: String)
    ensures
        url@ == prefix@ + query@,
{
    let mut url = prefix.to_owned();
    url.append(query.as_str());
    url
}

/// The request of an adapter that reads a page: none without a page from the
/// session, else the page sent to `prefix` followed by the title's query
/// string.
pub open spec fn page_plan(
    state: SessionState,
    prefix: Seq<char>,
    query: Seq<char>,
    container: Seq<char>,
    nested: Option<Seq<char>>,
    content: Content,
) -> Result<RequestModel, ScrapeError> {
    if state == SessionState::Running {
        Ok(
            RequestModel::Page {
                address: BLANK_PAGE@,
                user_agent: USER_AGENT@,
                url: prefix + query,
                container,
                nested,
                content,
            },
        )
    } else {
        Err(ScrapeError::SessionError)
    }
}

/// The search page of Indeed, up to the query.
pub const INDEED_SEARCH: &'static str = "https://nz.indeed.com/jobs?q=";

/// The element of Indeed's page that holds the count.
pub const INDEED_CONTAINER: &'static str = "div.jobsearch-JobCountAndSortPane-jobCount";

/// The element inside the container that holds the count's text.
pub const INDEED_NESTED: &'static str = "span";

/// The adapter for Indeed, whose page shows a phrase that the count leads,
/// such as "123 jobs".
pub struct IndeedScraper<'a> {
    browser: &'a Browser,
}

impl<'a> IndeedScraper<'a> {
    /// An adapter that reads its pages in the session of `browser`.
    pub fn new(browser: &'a Browser) -> (scraper: Self)
        ensures
            scraper.session() == browser.state(),
    {
        Self { browser }
    }

    /// Where the session stands whose pages this adapter reads.
    pub closed spec fn session(&self) -> SessionState {
        self.browser.state()
    }
}

impl<'a> Scraper for IndeedScraper<'a> {
    open spec fn plan(&self, job_title: Seq<char>) -> Result<RequestModel, ScrapeError> {
        page_plan(
            self.session(),
            INDEED_SEARCH@,
            encoded(job_title, PLUS@),
            INDEED_CONTAINER@,
            Some(INDEED_NESTED@),
            Content::InnerHtml,
        )
    }

    open spec fn answer(&self, fetched: Fetched) -> Result<Option<usize>, ScrapeError> {
        match failure_of(fetched) {
            Some(error) => Err(error),
            None => match text_of(fetched) {
                Some(text) => match leading_count_of(text) {
                    Ok(count) => Ok(Some(count)),
                    Err(error) => Err(error),
                },
                None => Ok(None),
            },
        }
    }

    fn request(&self, job_title: &str) -> (request: Result<Request, ScrapeError>) {
        let page = match self.browser.create_page() {
            Ok(page) => page,
            Err(error) => {
                return Err(error);
            },
        };
        let query = convert_job_title_to_query_string(job_title, PLUS);
        Ok(
            Request::Page {
                page,
                url: address(INDEED_SEARCH, query),
                container: INDEED_CONTAINER.to_owned(),
                nested: Some(INDEED_NESTED.to_owned()),
                content: Content::InnerHtml,
            },
        )
    }

    fn get_job_count(&self, fetched: &Fetched) -> (count: Result<Option<usize>, ScrapeError>) {
        if let Some(error) = fetched.failure() {
            return Err(error);
        }
        match fetched.text() {
            Some(text) => match parse_leading_count(text) {
                Ok(count) => Ok(Some(count)),
                Err(error) => Err(error),
            },
            None => Ok(None),
        }
    }
}

/// The search page of Trade Me, up to the query.
pub const TRADE_ME_SEARCH: &'static str = "https://www.trademe.co.nz/a/jobs/search?search_string=";

/// The heading of Trade Me's page that holds the count.
pub const TRADE_ME_HEADING: &'static str = "h3.tm-search-header-result-count__heading";

/// The adapter for Trade Me, whose page shows a sentence with the count
/// somewhere in it, such as "58 jobs found in New Zealand".
pub struct TradeMeScraper<'a> {
    browser: &'a Browser,
}

impl<'a> TradeMeScraper<'a> {
    /// An adapter that reads its pages in the session of `browser`.
    pub fn new(browser: &'a Browser) -> (scraper: Self)
        ensures
            scraper.session() == browser.state(),
    {
        Self { browser }
    }

    /// Where the session stands whose pages this adapter reads.
    pub closed spec fn session(&self) -> SessionState {
        self.browser.state()
    }
}

impl<'a> Scraper for TradeMeScraper<'a> {
    open spec fn plan(&self, job_title: Seq<char>) -> Result<RequestModel, ScrapeError> {
        page_plan(
            self.session(),
            TRADE_ME_SEARCH@,
            encoded(job_title, PERCENT_TWENTY@),
            TRADE_ME_HEADING@,
            None,
            Content::InnerText,
        )
    }

    open spec fn answer(&self, fetched: Fetched) -> Result<Option<usize>, ScrapeError> {
        match failure_of(fetched) {
            Some(error) => Err(error),
            None => match text_of(fetched) {
                Some(text) => match first_digits_count_of(text) {
                    Ok(count) => Ok(Some(count)),
                    Err(error) => Err(error),
                },
                None => Ok(None),
            },
        }
    }

    fn request(&self, job_title: &str) -> (request: Result<Request, ScrapeError>) {
        let page = match self.browser.create_page() {
            Ok(page) => page,
            Err(error) => {
                return Err(error);
            },
        };
        let query = convert_job_title_to_query_string(job_title, PERCENT_TWENTY);
        Ok(
            Request::Page {
                page,
                url: address(TRADE_ME_SEARCH, query),
                container: TRADE_ME_HEADING.to_owned(),
                nested: None,
                content: Content::InnerText,
            },
        )
    }

    fn get_job_count(&self, fetched: &Fetched) -> (count: Result<Option<usize>, ScrapeError>) {
        if let Some(error) = fetched.failure() {
            return Err(error);
        }
        match fetched.text() {
            Some(text) => match parse_first_digits(text) {
                Ok(count) => Ok(Some(count)),
                Err(error) => Err(error),
            },
            None => Ok(None),
        }
    }
}

/// The counts endpoint of Seek, with its site and region, up to the keywords.
pub const SEEK_COUNTS: &'static str =
    "https://jobsearch-api-ts.cloud.seek.com.au/v4/counts?siteKey=NZ-Main&where=All+New+Zealand&keywords=";

/// The adapter for Seek, which answers a direct request with counts as JSON.
pub struct SeekScraper {}

impl SeekScraper {
    /// An adapter for the counts endpoint.
    pub fn new() -> Self {
        Self {}
    }
}

impl Scraper for SeekScraper {
    open spec fn plan(&self, job_title: Seq<char>) -> Result<RequestModel, ScrapeError> {
        Ok(RequestModel::Get { url: SEEK_COUNTS@ + encoded(job_title, PLUS@) })
    }

    /// A body is read as JSON and its counts are summed: there is always a
    /// count or an error. No body at all is no JSON.
    open spec fn answer(&self, fetched: Fetched) -> Result<Option<usize>, ScrapeError> {
        match fetched {
            Fetched::Text(Some(body)) => body_count_of(body@),
            Fetched::Text(None) => Err(ScrapeError::ParseError),
            _ => Err(failure_of(fetched).unwrap()),
        }
    }

    fn request(&self, job_title: &str) -> (request: Result<Request, ScrapeError>) {
        let query = convert_job_title_to_query_string(job_title, PLUS);
        Ok(Request::Get { url: address(SEEK_COUNTS, query) })
    }

    fn get_job_count(&self, fetched: &Fetched) -> (count: Result<Option<usize>, ScrapeError>) {
        match fetched {
            Fetched::Text(Some(body)) => count_in_body(body.as_str()),
            Fetched::Text(None) => Err(ScrapeError::ParseError),
            _ => match fetched.failure() {
                Some(error) => Err(error),
                None => Err(ScrapeError::ParseError),
            },
        }
    }
}

/// The adapter for Jora, which is not supported yet: it asks for nothing and
/// answers everything with `NotImplemented`.
pub struct JoraScraper;

impl Scraper for JoraScraper {
    open spec fn plan(&self, job_title: Seq<char>) -> Result<RequestModel, ScrapeError> {
        Err(ScrapeError::NotImplemented)
    }

    open spec fn answer(&self, fetched: Fetched) -> Result<Option<usize>, ScrapeError> {
        Err(ScrapeError::NotImplemented)
    }

    fn request(&self, job_title: &str) -> (request: Result<Request, ScrapeError>)
        ensures
            request == Err::<Request, ScrapeError>(ScrapeError::NotImplemented),
    {
        Err(ScrapeError::NotImplemented)
    }

    fn get_job_count(&self, fetched: &Fetched) -> (count: Result<Option<usize>, ScrapeError>)
        ensures
            count == Err::<Option<usize>, ScrapeError>(ScrapeError::NotImplemented),
    {
        Err(ScrapeError::NotImplemented)
    }
}

/// A page without the element that should hold the count is an
/// `ElementNotFound`, for both adapters that read pages.
pub proof fn lemma_missing_element_is_reported(indeed: IndeedScraper, trade_me: TradeMeScraper)
    ensures
        indeed.answer(Fetched::ElementMissing) == Err::<Option<usize>, ScrapeError>(
            ScrapeError::ElementNotFound,
        ),
        trade_me.answer(Fetched::ElementMissing) == Err::<Option<usize>, ScrapeError>(
            ScrapeError::ElementNotFound,
        ),
{
}

/// An element without text, or with empty text, is a page that shows no
/// count: a success without a value, for both adapters that read pages.
pub proof fn lemma_no_text_is_no_count(
    indeed: IndeedScraper,
    trade_me: TradeMeScraper,
    text: Option<String>,
)
    requires
        text matches Some(text) ==> text@.len() == 0,
    ensures
        indeed.answer(Fetched::Text(text)) == Ok::<Option<usize>, ScrapeError>(None),
        trade_me.answer(Fetched::Text(text)) == Ok::<Option<usize>, ScrapeError>(None),
{
}

/// A fetch that failed is reported as the error it stands for, by every
/// adapter that fetches.
pub proof fn lemma_failure_is_passed_on(
    indeed: IndeedScraper,
    trade_me: TradeMeScraper,
    seek: SeekScraper,
    fetched: Fetched,
)
    requires
        failure_of(fetched) is Some,
    ensures
        indeed.answer(fetched) == Err::<Option<usize>, ScrapeError>(failure_of(fetched).unwrap()),
        trade_me.answer(fetched) == Err::<Option<usize>, ScrapeError>(
            failure_of(fetched).unwrap(),
        ),
        seek.answer(fetched) == Err::<Option<usize>, ScrapeError>(failure_of(fetched).unwrap()),
{
}

/// The adapter that reads JSON never reports the absence of a count.
pub proof fn lemma_seek_is_never_absent(seek: SeekScraper, fetched: Fetched)
    ensures
        seek.answer(fetched) != Ok::<Option<usize>, ScrapeError>(None),
{
}

/// The unsupported adapter answers `NotImplemented` to every title and to
/// everything fetched.
pub proof fn lemma_unsupported_says_so(jora: JoraScraper, job_title: Seq<char>, fetched: Fetched)
    ensures
        jora.plan(job_title) == Err::<RequestModel, ScrapeError>(ScrapeError::NotImplemented),
        jora.answer(fetched) == Err::<Option<usize>, ScrapeError>(ScrapeError::NotImplemented),
{
}

/// A page is asked for only of a running session: an adapter whose session
/// does not run asks for nothing, and fails with a `SessionError`.
pub proof fn lemma_no_page_without_running_session(
    indeed: IndeedScraper,
    trade_me: TradeMeScraper,
    job_title: Seq<char>,
)
    ensures
        indeed.plan(job_title) is Ok <==> indeed.session() == SessionState::Running,
        trade_me.plan(job_title) is Ok <==> trade_me.session() == SessionState::Running,
        indeed.plan(job_title) is Err ==> indeed.plan(job_title) == Err::<
            RequestModel,
            ScrapeError,
        >(ScrapeError::SessionError),
        trade_me.plan(job_title) is Err ==> trade_me.plan(job_title) == Err::<
            RequestModel,
            ScrapeError,
        >(ScrapeError::SessionError),
{
}

} // verus!
