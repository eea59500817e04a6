//! The line that tells a reader what came of the scrape for one job title.

use crate::count::{count_of, decimal, digit_value, is_digit, is_numeral};
use crate::error::ScrapeError;
use vstd::prelude::*;

verus! {

/// What every line starts with, before the title.
pub const LINE_START: &'static str = "Job count for ";

/// What stands between the title and the count.
pub const LINE_MIDDLE: &'static str = ": ";

/// What stands in the count's place where there is none to show.
pub const NONE_FOUND: &'static str = "None found";

/// The digit that stands for a number below ten.
pub open spec fn digit_of(n: nat) -> char
    recommends
        n < 10,
{
    (0x30 + n) as u8 as char
}

/// A number in base ten, without a sign and without leading zeros.
pub open spec fn numeral_of(n: nat) -> Seq<char>
    decreases n,
{
    if n < 10 {
        seq![digit_of(n)]
    } else {
        numeral_of(n / 10).push(digit_of(n % 10))
    }
}

/// What a line shows of an outcome: the count where there is one, and the
/// same words for no count as for any error.
pub open spec fn shown(outcome: Result<Option<usize>, ScrapeError>) -> Seq<char> {
    match outcome {
        Ok(Some(count)) => numeral_of(count as nat),
        _ => NONE_FOUND@,
    }
}

/// The line for a title and the outcome of its scrape.
pub open spec fn line_of(job_title: Seq<char>, outcome: Result<Option<usize>, ScrapeError>) -> Seq<
    char,
> {
    LINE_START@ + job_title + LINE_MIDDLE@ + shown(outcome)
}

/// Writes `count` in base ten.
pub fn write_count(count: usize) -> (text: String)
    ensures
        text@ == numeral_of(count as nat),
{
    let mut digits: Vec<char> = Vec::new();
    let mut rest: usize = count;
    while rest >= 10
        invariant
            numeral_of(count as nat) == numeral_of(rest as nat) + digits@.reverse(),
        decreases rest,
    {
        let digit: u8 = (rest % 10) as u8;
        let ghost before = digits@;
        digits.push((0x30 + digit) as char);
        proof {
            let last = digit_of((rest % 10) as nat);
            assert(digits@.reverse() == seq![last] + before.reverse());
            assert(numeral_of(rest as nat) == numeral_of((rest / 10) as nat).push(last));
            assert(numeral_of((rest / 10) as nat).push(last) + before.reverse() == numeral_of(
                (rest / 10) as nat,
            ) + (seq![last] + before.reverse()));
        }
        rest = rest / 10;
    }
    let mut text = String::new();
    text.push((0x30 + rest as u8) as char);
    let mut i: usize = digits.len();
    while i > 0
        invariant
            i <= digits.len(),
            text@ == numeral_of(rest as nat) + digits@.reverse().take(digits.len() - i),
        decreases i,
    {
        i -= 1;
        text.push(digits[i]);
        proof {
            let turned = digits@.reverse();
            let n = digits.len() - i;
            assert(turned.take(n) == turned.take(n - 1).push(turned[n - 1]));
            assert(numeral_of(rest as nat) + turned.take(n - 1).push(turned[n - 1]) == (numeral_of(
                rest as nat,
            ) + turned.take(n - 1)).push(turned[n - 1]));
        }
    }
    assert(digits@.reverse().take(digits.len() as int) == digits@.reverse());
    text
}

/// Writes the line that reports `outcome` for `job_title`.
pub fn report_line(job_title: &str, outcome: &Result<Option<usize>, ScrapeError>) -> (line: String)
    ensures
        line@ == line_of(job_title@, *outcome),
{
    let mut line = LINE_START.to_owned();
    line.append(job_title);
    line.append(LINE_MIDDLE);
    match outcome {
        Ok(Some(count)) => {
            let count = write_count(*count);
            line.append(count.as_str());
        },
        _ => {
            line.append(NONE_FOUND);
        },
    }
    line
}

/// What is written of a count reads back as that count.
pub proof fn lemma_written_count_reads_back(count: usize)
    ensures
        is_numeral(numeral_of(count as nat)),
        count_of(numeral_of(count as nat)) == Some(count),
{
    lemma_numeral_spells(count as nat);
    let text = numeral_of(count as nat);
    assert(is_digit(text[0]));
}

/// The digit of a number below ten is a digit, and stands for that number.
pub proof fn lemma_digit_of(n: nat)
    requires
        n < 10,
    ensures
        is_digit(digit_of(n)),
        digit_value(digit_of(n)) == n,
{
}

/// The numeral of a number is a run of digits that spells the number.
pub proof fn lemma_numeral_spells(n: nat)
    ensures
        is_numeral(numeral_of(n)),
        decimal(numeral_of(n)) == n,
    decreases n,
{
    let text = numeral_of(n);
    if n < 10 {
        lemma_digit_of(n);
        assert(text.drop_last() == Seq::<char>::empty());
        assert(text.last() == digit_of(n));
        assert(decimal(text.drop_last()) == 0);
    } else {
        lemma_numeral_spells(n / 10);
        lemma_digit_of(n % 10);
        let front = numeral_of(n / 10);
        assert(text.drop_last() == front);
        assert(text.last() == digit_of(n % 10));
        assert(decimal(text) == decimal(front) * 10 + digit_value(digit_of(n % 10)));
        assert forall|i: int| 0 <= i < text.len() implies is_digit(#[trigger] text[i]) by {
            if i < front.len() {
                assert(text[i] == front[i]);
            }
        }
    }
}

} // verus!
