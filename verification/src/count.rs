//! Counts out of text: the whitespace-separated token that leads a phrase, and
//! the decimal number that such a token spells.

use crate::error::ScrapeError;
use vstd::prelude::*;

verus! {

/// A character that Unicode classes as white space: the characters that
/// separate the tokens of a phrase.
pub open spec fn is_whitespace(c: char) -> bool {
    let code = c as u32;
    ||| 0x09 <= code <= 0x0D
    ||| code == 0x20
    ||| code == 0x85
    ||| code == 0xA0
    ||| code == 0x1680
    ||| 0x2000 <= code <= 0x200A
    ||| code == 0x2028
    ||| code == 0x2029
    ||| code == 0x202F
    ||| code == 0x205F
    ||| code == 0x3000
}

/// One of the ten ASCII digits.
pub open spec fn is_digit(c: char) -> bool {
    0x30 <= c as u32 <= 0x39
}

/// The number a digit stands for.
pub open spec fn digit_value(c: char) -> nat
    recommends
        is_digit(c),
{
    (c as u32 - 0x30) as nat
}

/// The number that a run of digits spells in base ten. The empty run spells 0.
pub open spec fn decimal(digits: Seq<char>) -> nat
    decreases digits.len(),
{
    if digits.len() == 0 {
        0
    } else {
        decimal(digits.drop_last()) * 10 + digit_value(digits.last())
    }
}

/// A run of one or more ASCII digits.
pub open spec fn is_numeral(text: Seq<char>) -> bool {
    &&& text.len() > 0
    &&& forall|i: int| 0 <= i < text.len() ==> is_digit(#[trigger] text[i])
}

/// `token` without the one plus sign that may lead it.
pub open spec fn unsigned_part(token: Seq<char>) -> Seq<char> {
    if token.len() > 0 && token[0] == '+' {
        token.skip(1)
    } else {
        token
    }
}

/// The count that `token` spells: ASCII digits, at least one, after at most one
/// leading `+`, with a value that a `usize` holds. Anything else, a thousands
/// separator included, spells no count.
pub open spec fn count_of(token: Seq<char>) -> Option<usize> {
    let digits = unsigned_part(token);
    if is_numeral(digits) && decimal(digits) <= usize::MAX {
        Some(decimal(digits) as usize)
    } else {
        None
    }
}

/// `text` from its first character that is no whitespace.
pub open spec fn trim_start(text: Seq<char>) -> Seq<char>
    decreases text.len(),
{
    if text.len() > 0 && is_whitespace(text[0]) {
        trim_start(text.drop_first())
    } else {
        text
    }
}

/// The longest prefix of `text` that holds no whitespace.
pub open spec fn leading_word(text: Seq<char>) -> Seq<char>
    decreases text.len(),
{
    if text.len() > 0 && !is_whitespace(text[0]) {
        seq![text[0]] + leading_word(text.drop_first())
    } else {
        Seq::empty()
    }
}

/// The first whitespace-separated token of `text`; empty where `text` holds
/// nothing but whitespace.
pub open spec fn first_token(text: Seq<char>) -> Seq<char> {
    leading_word(trim_start(text))
}

/// The count that leads `text`: what its first token spells. Text without a
/// token, or with a first token that spells no count, is a `ParseError`.
pub open spec fn leading_count_of(text: Seq<char>) -> Result<usize, ScrapeError> {
    match count_of(first_token(text)) {
        Some(count) => Ok(count),
        None => Err(ScrapeError::ParseError),
    }
}

/// A prefix of a run of digits spells no more than the whole run.
pub proof fn lemma_decimal_prefix(digits: Seq<char>, n: int)
    requires
        0 <= n <= digits.len(),
    ensures
        decimal(digits.take(n)) <= decimal(digits),
    decreases digits.len(),
{
    if n == digits.len() {
        assert(digits.take(n) == digits);
    } else {
        assert(digits.drop_last().take(n) == digits.take(n));
        lemma_decimal_prefix(digits.drop_last(), n);
    }
}

/// Text whose first `n` characters are whitespace trims as what follows them.
pub proof fn lemma_trim_start_skips(text: Seq<char>, n: int)
    requires
        0 <= n <= text.len(),
        forall|i: int| 0 <= i < n ==> is_whitespace(#[trigger] text[i]),
    ensures
        trim_start(text) == trim_start(text.skip(n)),
    decreases n,
{
    if n == 0 {
        assert(text.skip(0) == text);
    } else {
        assert(is_whitespace(text[0]));
        let rest = text.drop_first();
        assert forall|i: int| 0 <= i < n - 1 implies is_whitespace(#[trigger] rest[i]) by {
            assert(rest[i] == text[i + 1]);
        }
        lemma_trim_start_skips(rest, n - 1);
        assert(rest.skip(n - 1) == text.skip(n));
    }
}

/// Text whose first `n` characters hold no whitespace, and which ends there or
/// goes on with whitespace, has those `n` characters as its leading word.
pub proof fn lemma_leading_word_takes(text: Seq<char>, n: int)
    requires
        0 <= n <= text.len(),
        forall|i: int| 0 <= i < n ==> !is_whitespace(#[trigger] text[i]),
        n < text.len() ==> is_whitespace(text[n]),
    ensures
        leading_word(text) == text.take(n),
    decreases n,
{
    if n == 0 {
        assert(text.take(0) == Seq::<char>::empty());
    } else {
        assert(!is_whitespace(text[0]));
        let rest = text.drop_first();
        assert forall|i: int| 0 <= i < n - 1 implies !is_whitespace(#[trigger] rest[i]) by {
            assert(rest[i] == text[i + 1]);
        }
        if n < text.len() {
            assert(rest[n - 1] == text[n]);
        }
        lemma_leading_word_takes(rest, n - 1);
        assert(seq![text[0]] + rest.take(n - 1) == text.take(n));
    }
}

/// The characters of `text`, in order.
pub fn chars_of(text: &str) -> (chars: Vec<char>)
    ensures
        chars@ == text@,
{
    broadcast use vstd::string::group_string_axioms;

    let mut chars: Vec<char> = Vec::new();
    for c in it: text.chars()
        invariant
            it.seq() == text@,
            chars@ == text@.take(it.index()),
    {
        chars.push(c);
    }
    chars
}

/// Whether `c` separates tokens.
pub fn is_whitespace_char(c: char) -> (yes: bool)
    ensures
        yes == is_whitespace(c),
{
    let code: u32 = c as u32;
    (0x09 <= code && code <= 0x0D) || code == 0x20 || code == 0x85 || code == 0xA0 || code
        == 0x1680 || (0x2000 <= code && code <= 0x200A) || code == 0x2028 || code == 0x2029
        || code == 0x202F || code == 0x205F || code == 0x3000
}

/// The count that the characters of `chars` from `from` up to `to` spell.
fn parse_range(chars: &Vec<char>, from: usize, to: usize) -> (count: Option<usize>)
    requires
        from <= to <= chars.len(),
    ensures
        count == count_of(chars@.subrange(from as int, to as int)),
{
    let ghost token = chars@.subrange(from as int, to as int);
    let start: usize = if from < to && chars[from] == '+' {
        from + 1
    } else {
        from
    };
    let ghost digits = unsigned_part(token);
    assert(digits == chars@.subrange(start as int, to as int));
    if start == to {
        return None;
    }
    let mut value: usize = 0;
    let mut i: usize = start;
    while i < to
        invariant
            from <= start <= i <= to <= chars.len(),
            digits == unsigned_part(chars@.subrange(from as int, to as int)),
            digits == chars@.subrange(start as int, to as int),
            forall|k: int| 0 <= k < i - start ==> is_digit(#[trigger] digits[k]),
            value == decimal(digits.take(i - start)),
        decreases to - i,
    {
        let code: u32 = chars[i] as u32;
        assert(digits[i - start] == chars@[i as int]);
        if code < 0x30 || code > 0x39 {
            return None;
        }
        let digit: usize = (code - 0x30) as usize;
        let ghost upto = digits.take(i - start + 1);
        assert(upto.drop_last() == digits.take(i - start));
        assert(upto.last() == chars@[i as int]);
        assert(decimal(upto) == value * 10 + digit);
        proof {
            lemma_decimal_prefix(digits, i - start + 1);
        }
        let tens = match value.checked_mul(10) {
            Some(tens) => tens,
            None => {
                return None;
            },
        };
        value = match tens.checked_add(digit) {
            Some(sum) => sum,
            None => {
                return None;
            },
        };
        i += 1;
    }
    assert(digits.take(i - start) == digits);
    Some(value)
}

/// Reads `token` as a count.
pub fn parse_count(token: &str) -> (count: Option<usize>)
    ensures
        count == count_of(token@),
{
    let chars = chars_of(token);
    assert(chars@.subrange(0, chars@.len() as int) == chars@);
    parse_range(&chars, 0, chars.len())
}

/// Reads the count that leads a phrase such as "123 jobs": the first
/// whitespace-separated token, taken as a whole.
pub fn parse_leading_count(text: &str) -> (count: Result<usize, ScrapeError>)
    ensures
        count == leading_count_of(text@),
{
    let chars = chars_of(text);
    let mut from: usize = 0;
    while from < chars.len() && is_whitespace_char(chars[from])
        invariant
            from <= chars.len(),
            forall|i: int| 0 <= i < from ==> is_whitespace(#[trigger] chars@[i]),
        decreases chars.len() - from,
    {
        from += 1;
    }
    let mut to: usize = from;
    while to < chars.len() && !is_whitespace_char(chars[to])
        invariant
            from <= to <= chars.len(),
            forall|i: int| from <= i < to ==> !is_whitespace(#[trigger] chars@[i]),
        decreases chars.len() - to,
    {
        to += 1;
    }
    proof {
        let rest = chars@.skip(from as int);
        lemma_trim_start_skips(chars@, from as int);
        assert(trim_start(rest) == rest);
        assert forall|i: int| 0 <= i < to - from implies !is_whitespace(#[trigger] rest[i]) by {
            assert(rest[i] == chars@[from + i]);
        }
        lemma_leading_word_takes(rest, to - from);
        assert(rest.take(to - from) == chars@.subrange(from as int, to as int));
    }
    match parse_range(&chars, from, to) {
        Some(count) => Ok(count),
        None => Err(ScrapeError::ParseError),
    }
}

/// A token that holds a character other than an ASCII digit, anywhere but a
/// plus sign in front, spells no count. A thousands separator is such a
/// character.
pub proof fn lemma_stray_character_spoils(token: Seq<char>, i: int)
    requires
        0 <= i < token.len(),
        !is_digit(token[i]),
        i > 0 || token[i] != '+',
    ensures
        count_of(token) is None,
{
    let digits = unsigned_part(token);
    let first = token.len() - digits.len();
    if is_numeral(digits) {
        if i >= first {
            assert(digits[i - first] == token[i]);
        } else {
            assert(digits[0] == token[1]);
        }
    }
}

/// A phrase that starts with a numeral, and ends there or goes on with
/// whitespace, has the number that the numeral spells as its leading count,
/// if a `usize` holds it.
pub proof fn lemma_leading_numeral(numeral: Seq<char>, rest: Seq<char>)
    requires
        is_numeral(numeral),
        rest.len() > 0 ==> is_whitespace(rest[0]),
    ensures
        leading_count_of(numeral + rest) == if decimal(numeral) <= usize::MAX {
            Ok::<usize, ScrapeError>(decimal(numeral) as usize)
        } else {
            Err::<usize, ScrapeError>(ScrapeError::ParseError)
        },
{
    let text = numeral + rest;
    assert(is_digit(text[0]));
    assert(trim_start(text) == text);
    assert forall|i: int| 0 <= i < numeral.len() implies !is_whitespace(#[trigger] text[i]) by {
        assert(is_digit(numeral[i]));
    }
    lemma_leading_word_takes(text, numeral.len() as int);
    assert(text.take(numeral.len() as int) == numeral);
    assert(is_digit(numeral[0]));
    assert(unsigned_part(numeral) == numeral);
}

} // verus!
