//! Query strings: a job title with its spaces replaced as a site expects.

use vstd::prelude::*;

verus! {

/// What one character of a title becomes in the query: a space becomes
/// `replacement`, and any other character stays as it is.
pub open spec fn encoded_char(c: char, replacement: Seq<char>) -> Seq<char> {
    if c == ' ' {
        replacement
    } else {
        seq![c]
    }
}

/// The query string of `title`: its characters in order, each as
/// [`encoded_char`] gives it.
pub open spec fn encoded(title: Seq<char>, replacement: Seq<char>) -> Seq<char>
    decreases title.len(),
{
    if title.len() == 0 {
        Seq::empty()
    } else {
        encoded(title.drop_last(), replacement) + encoded_char(title.last(), replacement)
    }
}

/// How many spaces `title` holds.
pub open spec fn space_count(title: Seq<char>) -> nat
    decreases title.len(),
{
    if title.len() == 0 {
        0
    } else if title.last() == ' ' {
        space_count(title.drop_last()) + 1
    } else {
        space_count(title.drop_last())
    }
}

/// What stands for a space in a query that joins its words with plus signs.
pub const PLUS: &'static str = "+";

/// What stands for a space in a query that escapes it.
pub const PERCENT_TWENTY: &'static str = "%20";

/// `String::push` appends the character to the end of the string and leaves the
/// rest of it as it was.
pub assume_specification[ String::push ](text: &mut String, ch: char)
    ensures
        final(text)@ == old(text)@.push(ch),
;

/// Turns a job title into the form a site takes in its address: every space
/// is replaced by `space_replacement`, everything else is kept.
pub fn convert_job_title_to_query_string(job_title: &str, space_replacement: &str) -> (query:
    String)
    ensures
        query@ == encoded(job_title@, space_replacement@),
{
    broadcast use vstd::string::group_string_axioms;

    let mut query = String::new();
    for c in it: job_title.chars()
        invariant
            it.seq() == job_title@,
            query@ == encoded(job_title@.take(it.index()), space_replacement@),
    {
        let ghost before = job_title@.take(it.index());
        let ghost upto = job_title@.take(it.index() + 1);
        assert(upto.drop_last() == before);
        assert(upto.last() == c);
        if c == ' ' {
            query.append(space_replacement);
        } else {
            query.push(c);
        }
    }
    assert(job_title@.take(job_title@.len() as int) == job_title@);
    query
}

/// Encoding goes piece by piece: the query string of two texts joined is
/// their two query strings joined.
pub proof fn lemma_encoded_concat(front: Seq<char>, back: Seq<char>, replacement: Seq<char>)
    ensures
        encoded(front + back, replacement) == encoded(front, replacement) + encoded(
            back,
            replacement,
        ),
    decreases back.len(),
{
    if back.len() == 0 {
        assert(front + back == front);
    } else {
        assert((front + back).drop_last() == front + back.drop_last());
        lemma_encoded_concat(front, back.drop_last(), replacement);
    }
}

/// Every character of a title has its place in the query string: after the
/// query string of what precedes it and before the query string of what
/// follows it stands what the character itself becomes. So every space is
/// replaced, and every other character is kept, in its order.
pub proof fn lemma_encoded_at(title: Seq<char>, replacement: Seq<char>, i: int)
    requires
        0 <= i < title.len(),
    ensures
        encoded(title, replacement) == encoded(title.take(i), replacement) + encoded_char(
            title[i],
            replacement,
        ) + encoded(title.skip(i + 1), replacement),
{
    let upto = title.take(i + 1);
    assert(upto.drop_last() == title.take(i));
    assert(upto + title.skip(i + 1) == title);
    lemma_encoded_concat(upto, title.skip(i + 1), replacement);
}

/// The query string has one character for each character of the title that
/// is no space, and the replacement's characters for each space.
pub proof fn lemma_encoded_len(title: Seq<char>, replacement: Seq<char>)
    ensures
        space_count(title) <= title.len(),
        encoded(title, replacement).len() == title.len() - space_count(title) + space_count(
            title,
        ) * replacement.len(),
    decreases title.len(),
{
    if title.len() > 0 {
        lemma_encoded_len(title.drop_last(), replacement);
        let n = space_count(title.drop_last());
        let width = replacement.len();
        assert((n + 1) * width == n * width + width) by (nonlinear_arith);
        assert(encoded(title, replacement).len() == encoded(title.drop_last(), replacement).len()
            + encoded_char(title.last(), replacement).len());
        if title.last() == ' ' {
            assert(space_count(title) == n + 1);
        } else {
            assert(space_count(title) == n);
        }
    } else {
        assert(space_count(title) * replacement.len() == 0) by (nonlinear_arith)
            requires
                space_count(title) == 0,
        ;
    }
}

/// With a replacement that holds no space, no space is left in the query
/// string.
pub proof fn lemma_encoded_has_no_space(title: Seq<char>, replacement: Seq<char>)
    requires
        forall|k: int| 0 <= k < replacement.len() ==> replacement[k] != ' ',
    ensures
        forall|k: int|
            0 <= k < encoded(title, replacement).len() ==> encoded(title, replacement)[k] != ' ',
    decreases title.len(),
{
    if title.len() > 0 {
        lemma_encoded_has_no_space(title.drop_last(), replacement);
        let front = encoded(title.drop_last(), replacement);
        let piece = encoded_char(title.last(), replacement);
        assert forall|k: int| 0 <= k < (front + piece).len() implies (front + piece)[k] != ' ' by {
            if k >= front.len() {
                assert((front + piece)[k] == piece[k - front.len()]);
            }
        }
    }
}

/// A title without a space is its own query string.
pub proof fn lemma_encoded_without_spaces(title: Seq<char>, replacement: Seq<char>)
    requires
        forall|k: int| 0 <= k < title.len() ==> title[k] != ' ',
    ensures
        encoded(title, replacement) == title,
    decreases title.len(),
{
    if title.len() > 0 {
        lemma_encoded_without_spaces(title.drop_last(), replacement);
        assert(title.drop_last().push(title.last()) == title);
    }
}

/// With a replacement of one character the query string is the title with
/// that character in the place of each space, and nothing else changed.
pub proof fn lemma_encoded_by_one_char(title: Seq<char>, mark: char)
    ensures
        encoded(title, seq![mark]).len() == title.len(),
        forall|k: int|
            0 <= k < title.len() ==> encoded(title, seq![mark])[k] == if title[k] == ' ' {
                mark
            } else {
                title[k]
            },
    decreases title.len(),
{
    if title.len() > 0 {
        lemma_encoded_by_one_char(title.drop_last(), mark);
        let front = encoded(title.drop_last(), seq![mark]);
        let piece = encoded_char(title.last(), seq![mark]);
        assert(piece.len() == 1);
        assert forall|k: int| 0 <= k < title.len() implies (front + piece)[k] == if title[k]
            == ' ' {
            mark
        } else {
            title[k]
        } by {
            if k < front.len() {
                assert(title[k] == title.drop_last()[k]);
            } else {
                assert((front + piece)[k] == piece[0]);
            }
        }
    }
}

/// A query that joins with plus signs is the title with a plus sign in the
/// place of each space: as long as the title, and the same in every other
/// place.
pub proof fn lemma_plus_query(title: Seq<char>)
    ensures
        encoded(title, PLUS@).len() == title.len(),
        forall|k: int|
            0 <= k < title.len() ==> encoded(title, PLUS@)[k] == if title[k] == ' ' {
                '+'
            } else {
                title[k]
            },
{
    reveal_strlit("+");
    assert(PLUS@ == seq!['+']);
    lemma_encoded_by_one_char(title, '+');
}

/// A query that escapes its spaces holds no space, and two characters more
/// than the title for each space of the title.
pub proof fn lemma_percent_query(title: Seq<char>)
    ensures
        encoded(title, PERCENT_TWENTY@).len() == title.len() + 2 * space_count(title),
        forall|k: int|
            0 <= k < encoded(title, PERCENT_TWENTY@).len() ==> encoded(title, PERCENT_TWENTY@)[k]
                != ' ',
{
    reveal_strlit("%20");
    assert(PERCENT_TWENTY@ == seq!['%', '2', '0']);
    lemma_encoded_len(title, PERCENT_TWENTY@);
    lemma_encoded_has_no_space(title, PERCENT_TWENTY@);
}

/// A query that escapes its spaces holds `%20` where the title holds a space
/// and the title's own character where it holds another, each between what
/// the title's characters before it and after it have become.
pub proof fn lemma_percent_query_at(title: Seq<char>, i: int)
    requires
        0 <= i < title.len(),
    ensures
        encoded(title, PERCENT_TWENTY@) == encoded(title.take(i), PERCENT_TWENTY@) + (if title[i]
            == ' ' {
            seq!['%', '2', '0']
        } else {
            seq![title[i]]
        }) + encoded(title.skip(i + 1), PERCENT_TWENTY@),
{
    reveal_strlit("%20");
    assert(PERCENT_TWENTY@ == seq!['%', '2', '0']);
    lemma_encoded_at(title, PERCENT_TWENTY@, i);
}

} // verus!
