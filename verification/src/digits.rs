//! Counts out of a sentence: the first run of digits in it, which the `regex`
//! crate finds, read as a decimal number.

use crate::count::{count_of, is_digit, parse_count, unsigned_part};
use crate::error::ScrapeError;
use vstd::prelude::*;

verus! {

/// The pattern of a digit run: one or more decimal digits, of any script.
pub const DIGIT_RUN: &'static str = "\\d+";

/// The error of the `regex` crate: a pattern that does not compile.
#[verifier::external_type_specification]
#[verifier::external_body]
pub struct ExPatternError(regex::Error);

/// What a search of `text` for `pattern` with the `regex` crate gives: `None`
/// where the pattern does not compile, `Some(None)` where it matches nowhere,
/// else the text of the leftmost match.
pub uninterp spec fn leftmost_match(pattern: Seq<char>, text: Seq<char>) -> Option<
    Option<Seq<char>>,
>;

/// `part` stands somewhere in `text`, as consecutive characters.
pub open spec fn occurs_in(part: Seq<char>, text: Seq<char>) -> bool {
    exists|at: int|
        0 <= at && at + part.len() <= text.len() && #[trigger] text.subrange(
            at,
            at + part.len(),
        ) == part
}

/// `Regex::new` on `pattern`, then `Regex::find` on `text`, and `Match::as_str`
/// on what was found. The search is a function of the pattern and the text
/// alone, and what it finds is a piece of the text. Nothing is claimed of which
/// piece: that is the `regex` crate's to say.
#[verifier::external_body]
fn find_leftmost(pattern: &str, text: &str) -> (found: Result<Option<String>, regex::Error>)
    ensures
        match found {
            Ok(Some(run)) => leftmost_match(pattern@, text@) == Some(Some(run@)) && occurs_in(
                run@,
                text@,
            ),
            Ok(None) => leftmost_match(pattern@, text@) == Some(None::<Seq<char>>),
            Err(_) => leftmost_match(pattern@, text@) is None,
        },
{
    match regex::Regex::new(pattern) {
        Ok(matcher) => match matcher.find(text) {
            Some(found) => Ok(Some(found.as_str().to_string())),
            None => Ok(None),
        },
        Err(error) => Err(error),
    }
}

/// The count in the outcome of a search for a digit run: what the run spells.
/// No run, or a run that spells no count, is a `ParseError`.
pub open spec fn digit_run_count_of(found: Option<Seq<char>>) -> Result<usize, ScrapeError> {
    match found {
        Some(run) => match count_of(run) {
            Some(count) => Ok(count),
            None => Err(ScrapeError::ParseError),
        },
        None => Err(ScrapeError::ParseError),
    }
}

/// Reads the digit run that a search found as a count.
pub fn count_in_digit_run(found: Option<&str>) -> (count: Result<usize, ScrapeError>)
    ensures
        count == digit_run_count_of(
            match found {
                Some(run) => Some(run@),
                None => None,
            },
        ),
{
    match found {
        Some(run) => match parse_count(run) {
            Some(count) => Ok(count),
            None => Err(ScrapeError::ParseError),
        },
        None => Err(ScrapeError::ParseError),
    }
}

/// The count that a sentence such as "58 jobs found" holds anywhere in it: what
/// its first digit run spells.
pub open spec fn first_digits_count_of(text: Seq<char>) -> Result<usize, ScrapeError> {
    match leftmost_match(DIGIT_RUN@, text) {
        Some(found) => digit_run_count_of(found),
        None => Err(ScrapeError::ParseError),
    }
}

/// Text that spells a count holds an ASCII digit, and so does any text that
/// it is a piece of.
pub proof fn lemma_count_needs_digit(run: Seq<char>, text: Seq<char>)
    requires
        occurs_in(run, text),
        count_of(run) is Some,
    ensures
        exists|i: int| 0 <= i < text.len() && is_digit(#[trigger] text[i]),
{
    let at = choose|at: int|
        0 <= at && at + run.len() <= text.len() && #[trigger] text.subrange(at, at + run.len())
            == run;
    let digits = unsigned_part(run);
    let first = run.len() - digits.len();
    assert(is_digit(digits[0]));
    assert(digits[0] == run[first]);
    assert(run[first] == text.subrange(at, at + run.len())[first]);
    assert(is_digit(text[at + first]));
}

/// Reads the count out of the first run of digits in `text`. Whatever the
/// search finds: a count that comes out is spelled by a piece of `text`, and
/// text without an ASCII digit gives a `ParseError`.
pub fn parse_first_digits(text: &str) -> (count: Result<usize, ScrapeError>)
    ensures
        count == first_digits_count_of(text@),
        count matches Ok(n) ==> exists|run: Seq<char>|
            occurs_in(run, text@) && #[trigger] count_of(run) == Some(n),
        (forall|i: int| 0 <= i < text@.len() ==> !is_digit(#[trigger] text@[i])) ==> count == Err::<
            usize,
            ScrapeError,
        >(ScrapeError::ParseError),
{
    match find_leftmost(DIGIT_RUN, text) {
        Ok(Some(run)) => {
            let count = count_in_digit_run(Some(run.as_str()));
            proof {
                if count is Ok {
                    lemma_count_needs_digit(run@, text@);
                }
            }
            count
        },
        Ok(None) => count_in_digit_run(None),
        Err(_) => Err(ScrapeError::ParseError),
    }
}

} // verus!
