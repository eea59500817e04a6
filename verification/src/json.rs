//! JSON documents, as far as the counting reads them, and the sum of the
//! counts that a response holds.

use crate::error::ScrapeError;
use vstd::prelude::*;

verus! {

/// A JSON value. Of a number it keeps what the counting reads: the `u64` it
/// is, if it is one.
#[derive(Debug, PartialEq, Eq)]
pub enum Json {
    Null,
    Bool(bool),
    /// A number; `None` where it is negative, fractional or too large.
    Number(Option<u64>),
    Text(String),
    Array(Vec<Json>),
    /// An object: its members, each a name with its value.
    Object(Vec<(String, Json)>),
}

/// What a [`Json`] value holds.
pub enum JsonModel {
    Null,
    Bool(bool),
    Number(Option<u64>),
    Text(Seq<char>),
    Array(Seq<JsonModel>),
    Object(Seq<(Seq<char>, JsonModel)>),
}

/// What `json` holds: the same value, with texts and lists as sequences.
pub open spec fn model_of(j: Json) -> JsonModel
    decreases j,
{
    match j {
        Json::Null => JsonModel::Null,
        Json::Bool(b) => JsonModel::Bool(b),
        Json::Number(n) => JsonModel::Number(n),
        Json::Text(s) => JsonModel::Text(s@),
        Json::Array(items) => JsonModel::Array(
            Seq::new(
                items@.len(),
                |i: int|
                    if 0 <= i < items@.len() {
                        model_of(items@[i])
                    } else {
                        JsonModel::Null
                    },
            ),
        ),
        Json::Object(members) => JsonModel::Object(
            Seq::new(
                members@.len(),
                |i: int|
                    if 0 <= i < members@.len() {
                        (members@[i].0@, model_of(members@[i].1))
                    } else {
                        (Seq::empty(), JsonModel::Null)
                    },
            ),
        ),
    }
}

impl View for Json {
    type V = JsonModel;

    open spec fn view(&self) -> JsonModel {
        model_of(*self)
    }
}

/// The members of an object, as its model has them: each name with the model
/// of its value, in their order.
pub open spec fn members_model(members: Vec<(String, Json)>) -> Seq<(Seq<char>, JsonModel)> {
    Seq::new(members@.len(), |i: int| (members@[i].0@, members@[i].1@))
}

/// The model of an object holds the models of its members.
pub proof fn lemma_object_model(members: Vec<(String, Json)>)
    ensures
        Json::Object(members)@ == JsonModel::Object(members_model(members)),
{
    assert(Json::Object(members)@->Object_0 =~= members_model(members));
}

impl JsonModel {
    /// The value of the member called `name`; `Null` where this is no object,
    /// or an object without such a member.
    pub open spec fn member(self, name: Seq<char>) -> JsonModel {
        match self {
            JsonModel::Object(members) => lookup(members, name),
            _ => JsonModel::Null,
        }
    }

    /// The element at `index`; `Null` where this is no array, or an array
    /// that ends before `index`.
    pub open spec fn element(self, index: int) -> JsonModel {
        match self {
            JsonModel::Array(items) => if 0 <= index < items.len() {
                items[index]
            } else {
                JsonModel::Null
            },
            _ => JsonModel::Null,
        }
    }

    /// The count that this value is: the `u64` of a number that is one.
    pub open spec fn count(self) -> Option<u64> {
        match self {
            JsonModel::Number(n) => n,
            _ => None,
        }
    }
}

/// The value of the first of `members` that is called `name`, `Null` where
/// none is.
pub open spec fn lookup(members: Seq<(Seq<char>, JsonModel)>, name: Seq<char>) -> JsonModel
    decreases members.len(),
{
    if members.len() == 0 {
        JsonModel::Null
    } else if members[0].0 == name {
        members[0].1
    } else {
        lookup(members.drop_first(), name)
    }
}

/// Every one of `members` holds a count.
pub open spec fn all_counts(members: Seq<(Seq<char>, JsonModel)>) -> bool {
    forall|i: int| 0 <= i < members.len() ==> (#[trigger] members[i]).1.count() is Some
}

/// The sum of the counts that `members` hold; a member that holds none adds
/// nothing.
pub open spec fn total(members: Seq<(Seq<char>, JsonModel)>) -> nat
    decreases members.len(),
{
    if members.len() == 0 {
        0
    } else {
        total(members.drop_last()) + match members.last().1.count() {
            Some(n) => n as nat,
            None => 0,
        }
    }
}

/// The job count that a bucket of per-category counts stands for: their sum.
/// A member that is no count, or a sum that no `usize` holds, is a
/// `JsonShapeError`.
pub open spec fn bucket_count_of(members: Seq<(Seq<char>, JsonModel)>) -> Result<
    usize,
    ScrapeError,
> {
    if all_counts(members) && total(members) <= usize::MAX {
        Ok(total(members) as usize)
    } else {
        Err(ScrapeError::JsonShapeError)
    }
}

/// The name of the member that holds the list of count buckets.
pub const COUNTS_KEY: &'static str = "counts";

/// The place in that list of the bucket that is summed.
pub const BUCKET_INDEX: usize = 2;

/// The name of the bucket's member that holds the counts.
pub const ITEMS_KEY: &'static str = "items";

/// The object whose members are summed: `counts[2].items` of the document.
pub open spec fn counts_bucket(doc: JsonModel) -> JsonModel {
    doc.member(COUNTS_KEY@).element(BUCKET_INDEX as int).member(ITEMS_KEY@)
}

/// The job count in a response document: that of the bucket at
/// `counts[2].items`. A document without an object there is a
/// `JsonShapeError`. No document gives the absence of a count.
pub open spec fn document_count_of(doc: JsonModel) -> Result<Option<usize>, ScrapeError> {
    match counts_bucket(doc) {
        JsonModel::Object(members) => match bucket_count_of(members) {
            Ok(count) => Ok(Some(count)),
            Err(error) => Err(error),
        },
        _ => Err(ScrapeError::JsonShapeError),
    }
}

/// The total of the first `n` members is no more than the total of all.
pub proof fn lemma_total_prefix(members: Seq<(Seq<char>, JsonModel)>, n: int)
    requires
        0 <= n <= members.len(),
    ensures
        total(members.take(n)) <= total(members),
    decreases members.len(),
{
    if n == members.len() {
        assert(members.take(n) == members);
    } else {
        assert(members.drop_last().take(n) == members.take(n));
        lemma_total_prefix(members.drop_last(), n);
    }
}

/// A document always gives a count or an error, never the absence of one.
pub proof fn lemma_document_count_is_never_absent(doc: JsonModel)
    ensures
        document_count_of(doc) != Ok::<Option<usize>, ScrapeError>(None),
{
}

/// A document that is no object, or has no member `counts`, or fewer than
/// three buckets under it, or no member `items` in the third, has not the
/// shape that holds the counts.
pub proof fn lemma_missing_path_is_shape_error(doc: JsonModel)
    requires
        doc.member(COUNTS_KEY@) == JsonModel::Null || doc.member(COUNTS_KEY@).element(
            BUCKET_INDEX as int,
        ) == JsonModel::Null || counts_bucket(doc) == JsonModel::Null,
    ensures
        document_count_of(doc) == Err::<Option<usize>, ScrapeError>(ScrapeError::JsonShapeError),
{
}

/// One member that is no count makes the whole bucket a shape error.
pub proof fn lemma_stray_member_is_shape_error(members: Seq<(Seq<char>, JsonModel)>, i: int)
    requires
        0 <= i < members.len(),
        members[i].1.count() is None,
    ensures
        bucket_count_of(members) == Err::<usize, ScrapeError>(ScrapeError::JsonShapeError),
{
}

impl Json {
    /// The value of the member called `name`, if this is an object that has
    /// one.
    pub fn member(&self, name: &str) -> (found: Option<&Json>)
        ensures
            match found {
                Some(value) => value@ == self@.member(name@),
                None => self@.member(name@) == JsonModel::Null,
            },
    {
        match self {
            Json::Object(members) => {
                let wanted = name.to_owned();
                let ghost model = members_model(*members);
                proof {
                    lemma_object_model(*members);
                    assert(model.skip(0) == model);
                }
                let mut i: usize = 0;
                while i < members.len()
                    invariant
                        i <= members.len(),
                        wanted@ == name@,
                        self@.member(name@) == lookup(model, name@),
                        model == members_model(*members),
                        lookup(model, name@) == lookup(model.skip(i as int), name@),
                    decreases members.len() - i,
                {
                    let ghost rest = model.skip(i as int);
                    assert(rest[0] == model[i as int]);
                    assert(rest.drop_first() == model.skip(i + 1));
                    if members[i].0 == wanted {
                        return Some(&members[i].1);
                    }
                    i += 1;
                }
                None
            },
            _ => None,
        }
    }

    /// The element at `index`, if this is an array that has one.
    pub fn element(&self, index: usize) -> (found: Option<&Json>)
        ensures
            match found {
                Some(value) => value@ == self@.element(index as int),
                None => self@.element(index as int) == JsonModel::Null,
            },
    {
        match self {
            Json::Array(items) => if index < items.len() {
                Some(&items[index])
            } else {
                None
            },
            _ => None,
        }
    }

    /// The count that this value is.
    pub fn count(&self) -> (count: Option<u64>)
        ensures
            count == self@.count(),
    {
        match self {
            Json::Number(n) => *n,
            _ => None,
        }
    }
}

/// Sums the counts of a bucket into one job count.
pub fn sum_bucket(members: &Vec<(String, Json)>) -> (count: Result<usize, ScrapeError>)
    ensures
        count == bucket_count_of(members_model(*members)),
{
    let ghost model = members_model(*members);
    let mut sum: u64 = 0;
    let mut i: usize = 0;
    while i < members.len()
        invariant
            i <= members.len(),
            model == members_model(*members),
            forall|k: int| 0 <= k < i ==> (#[trigger] model[k]).1.count() is Some,
            sum == total(model.take(i as int)),
        decreases members.len() - i,
    {
        let ghost upto = model.take(i + 1);
        assert(upto.drop_last() == model.take(i as int));
        assert(upto.last() == model[i as int]);
        proof {
            lemma_total_prefix(model, i + 1);
        }
        match members[i].1.count() {
            Some(n) => match sum.checked_add(n) {
                Some(next) => {
                    sum = next;
                },
                None => {
                    return Err(ScrapeError::JsonShapeError);
                },
            },
            None => {
                return Err(ScrapeError::JsonShapeError);
            },
        }
        i += 1;
    }
    assert(model.take(i as int) == model);
    if sum <= usize::MAX as u64 {
        Ok(sum as usize)
    } else {
        Err(ScrapeError::JsonShapeError)
    }
}

/// Reads the job count out of a response document: the sum of the counts in
/// the object at `counts[2].items`.
pub fn count_in_document(doc: &Json) -> (count: Result<Option<usize>, ScrapeError>)
    ensures
        count == document_count_of(doc@),
{
    let bucket = match doc.member(COUNTS_KEY) {
        Some(list) => match list.element(BUCKET_INDEX) {
            Some(entry) => entry.member(ITEMS_KEY),
            None => None,
        },
        None => None,
    };
    match bucket {
        Some(Json::Object(members)) => {
            proof {
                lemma_object_model(*members);
            }
            match sum_bucket(members) {
                Ok(total) => Ok(Some(total)),
                Err(error) => Err(error),
            }
        },
        _ => Err(ScrapeError::JsonShapeError),
    }
}

/// A JSON value of the `serde_json` crate.
#[verifier::external_type_specification]
#[verifier::external_body]
pub struct ExDocumentValue(serde_json::Value);

/// The error of the `serde_json` crate: text that is not JSON.
#[verifier::external_type_specification]
#[verifier::external_body]
pub struct ExDocumentError(serde_json::Error);

/// The document that `text` spells, as the `serde_json` crate reads it; `None`
/// where `text` is not JSON.
pub uninterp spec fn parsed_json(text: Seq<char>) -> Option<JsonModel>;

/// What a value of the `serde_json` crate holds.
pub uninterp spec fn value_model(value: serde_json::Value) -> JsonModel;

/// `serde_json::from_str` at the type `serde_json::Value`. Whether it reads
/// `text`, and what it reads, depends on `text` alone.
#[verifier::external_body]
fn read_value(text: &str) -> (read: Result<serde_json::Value, serde_json::Error>)
    ensures
        match read {
            Ok(value) => parsed_json(text@) == Some(value_model(value)),
            Err(_) => parsed_json(text@) is None,
        },
{
    serde_json::from_str::<serde_json::Value>(text)
}

/// Takes a `serde_json::Value` apart, variant by variant, and puts the same
/// value together as a [`Json`]: a number through `Number::as_u64`, the
/// elements of an array and the members of an object each in the order in
/// which the value hands them out.
#[verifier::external_body]
fn convert_value(value: serde_json::Value) -> (json: Json)
    ensures
        json@ == value_model(value),
{
    match value {
        serde_json::Value::Null => Json::Null,
        serde_json::Value::Bool(b) => Json::Bool(b),
        serde_json::Value::Number(n) => Json::Number(n.as_u64()),
        serde_json::Value::String(s) => Json::Text(s),
        serde_json::Value::Array(items) => Json::Array(items.into_iter().map(convert_value).collect()),
        serde_json::Value::Object(members) => Json::Object(
            members.into_iter().map(|(name, value)| (name, convert_value(value))).collect(),
        ),
    }
}

/// Reads a response body as a JSON document. A body that is not JSON is a
/// `ParseError`.
pub fn parse_document(body: &str) -> (doc: Result<Json, ScrapeError>)
    ensures
        match doc {
            Ok(json) => parsed_json(body@) == Some(json@),
            Err(error) => error == ScrapeError::ParseError && parsed_json(body@) is None,
        },
{
    match read_value(body) {
        Ok(value) => Ok(convert_value(value)),
        Err(_) => Err(ScrapeError::ParseError),
    }
}

/// The job count in a response body: that of the document it spells.
pub open spec fn body_count_of(body: Seq<char>) -> Result<Option<usize>, ScrapeError> {
    match parsed_json(body) {
        Some(doc) => document_count_of(doc),
        None => Err(ScrapeError::ParseError),
    }
}

/// Reads the job count out of a response body.
pub fn count_in_body(body: &str) -> (count: Result<Option<usize>, ScrapeError>)
    ensures
        count == body_count_of(body@),
{
    match parse_document(body) {
        Ok(doc) => count_in_document(&doc),
        Err(error) => Err(error),
    }
}

} // verus!
