//! Extraction of user records from a response body.
//!
//! Two strategies are offered.  The lenient one scans the text for the
//! first `"screen_name"` and `"is_verified"` keys and never parses; the
//! structured one reads the body as a JSON document and walks its
//! `users` array.

use vstd::prelude::*;
use crate::json::{
    json_document, json_tree, member, parse_document, tree_member, trees_of, JsonTree,
};
use crate::text::{
    begins_with, chars_of, find, find_stop, first_occurrence, occurs_at, range_equals,
    starts_with, trim_bounds, trimmed, up_to,
};

verus! {

/// A user as a response body describes it.
#[derive(Clone, Debug, PartialEq, Eq)]
pub struct ExtractedRecord {
    pub screen_name: String,
    pub is_verified: bool,
}

impl View for ExtractedRecord {
    type V = (Seq<char>, bool);

    open spec fn view(&self) -> (Seq<char>, bool) {
        (self.screen_name@, self.is_verified)
    }
}

/// What an extraction yields, over plain values.
pub enum OutcomeModel {
    Found(Seq<(Seq<char>, bool)>),
    NotFound,
    InvalidFormat,
}

/// What an extraction yields.
#[derive(Clone, Debug, PartialEq, Eq)]
pub enum ExtractionOutcome {
    /// The records that the body holds, in the order in which it lists them.
    Found(Vec<ExtractedRecord>),
    /// The body does not hold what the strategy looks for.
    NotFound,
    /// The body is not a JSON document (structured strategy only).
    InvalidFormat,
}

/// The views of a run of records, in order.
pub open spec fn record_views(records: Seq<ExtractedRecord>) -> Seq<(Seq<char>, bool)> {
    Seq::new(records.len(), |i: int| records[i]@)
}

impl View for ExtractionOutcome {
    type V = OutcomeModel;

    open spec fn view(&self) -> OutcomeModel {
        match self {
            ExtractionOutcome::Found(records) => OutcomeModel::Found(record_views(records@)),
            ExtractionOutcome::NotFound => OutcomeModel::NotFound,
            ExtractionOutcome::InvalidFormat => OutcomeModel::InvalidFormat,
        }
    }
}

/// How a body is searched for records.
#[derive(Clone, Copy, Debug, PartialEq, Eq, Structural)]
pub enum ExtractionMode {
    /// Scan the text for the first occurrence of each key.
    LenientText,
    /// Parse the text as JSON and read the `users` array.
    StructuredJson,
}

/// The prefix that the lenient strategy insists on.
pub open spec fn users_prefix() -> Seq<char> {
    "{\"users\":["@
}

/// The key, with the quote that opens its value, before a screen name.
pub open spec fn screen_name_key() -> Seq<char> {
    "\"screen_name\":\""@
}

/// The key before a verification flag.
pub open spec fn is_verified_key() -> Seq<char> {
    "\"is_verified\":"@
}

/// What follows the first occurrence of `key` in `content`.
pub open spec fn text_after(content: Seq<char>, key: Seq<char>) -> Option<Seq<char>> {
    match first_occurrence(content, key) {
        Some(at) => Some(content.skip(at + key.len())),
        None => None,
    }
}

/// The screen name that the lenient scan reads: the text between the
/// first screen-name key and the next double quote, or the empty text
/// where the key does not occur.
pub open spec fn screen_name_in(content: Seq<char>) -> Seq<char> {
    match text_after(content, screen_name_key()) {
        Some(rest) => up_to(rest, '"'),
        None => Seq::empty(),
    }
}

/// The flag that the lenient scan reads: whether the text between the
/// first verification key and the next comma is, once trimmed, `true`.
pub open spec fn is_verified_in(content: Seq<char>) -> bool {
    match text_after(content, is_verified_key()) {
        Some(rest) => trimmed(up_to(rest, ',')) == "true"@,
        None => false,
    }
}

/// The outcome of the lenient strategy on a body.
pub open spec fn lenient_outcome(body: Seq<char>) -> OutcomeModel {
    if starts_with(body, users_prefix()) {
        OutcomeModel::Found(seq![(screen_name_in(body), is_verified_in(body))])
    } else {
        OutcomeModel::NotFound
    }
}

/// The record that a user object stands for: its `screen_name` where that
/// is a string, else the empty text; its `is_verified` where that is a
/// boolean, else `false`.
pub open spec fn record_of_tree(user: JsonTree) -> (Seq<char>, bool) {
    (
        match tree_member(user, "screen_name"@) {
            Some(JsonTree::Text(name)) => name,
            _ => Seq::empty(),
        },
        match tree_member(user, "is_verified"@) {
            Some(JsonTree::Bool(flag)) => flag,
            _ => false,
        },
    )
}

/// The outcome of the structured strategy on a document: a record for
/// each element of its `users` array, or `NotFound` where it has no such
/// array.
pub open spec fn document_outcome(document: JsonTree) -> OutcomeModel {
    match tree_member(document, "users"@) {
        Some(JsonTree::Array(users)) => OutcomeModel::Found(
            Seq::new(users.len(), |i: int| record_of_tree(users[i])),
        ),
        _ => OutcomeModel::NotFound,
    }
}

/// The outcome of the structured strategy on a body.
pub open spec fn structured_outcome(body: Seq<char>) -> OutcomeModel {
    match json_document(body) {
        Some(document) => document_outcome(document),
        None => OutcomeModel::InvalidFormat,
    }
}

/// The outcome of the chosen strategy on a body.
pub open spec fn extraction(mode: ExtractionMode, body: Seq<char>) -> OutcomeModel {
    match mode {
        ExtractionMode::LenientText => lenient_outcome(body),
        ExtractionMode::StructuredJson => structured_outcome(body),
    }
}

/// Reads the screen name that follows the first screen-name key.
pub fn extract_screen_name(content: &str) -> (name: String)
    ensures
        name@ == screen_name_in(content@),
{
    let chars = chars_of(content);
    let key = chars_of("\"screen_name\":\"");
    match find(&chars, &key) {
        Some(at) => {
            assert(occurs_at(chars@, key@, at as int));
            assert(at + key.len() <= chars.len());
            let start: usize = at + key.len();
            let end: usize = find_stop(&chars, start, '"');
            content.substring_char(start, end).to_owned()
        },
        None => String::new(),
    }
}

/// Reads the flag that follows the first verification key.
pub fn extract_is_verified(content: &str) -> (flag: bool)
    ensures
        flag == is_verified_in(content@),
{
    let chars = chars_of(content);
    let key = chars_of("\"is_verified\":");
    match find(&chars, &key) {
        Some(at) => {
            assert(occurs_at(chars@, key@, at as int));
            assert(at + key.len() <= chars.len());
            let start: usize = at + key.len();
            let end: usize = find_stop(&chars, start, ',');
            let (lo, hi) = trim_bounds(&chars, start, end);
            let word = chars_of("true");
            range_equals(&chars, lo, hi, &word)
        },
        None => false,
    }
}

/// The lenient strategy: a body that begins with the users prefix yields
/// one record, read by scanning; any other body yields `NotFound`.
pub fn extract_lenient(body: &str) -> (outcome: ExtractionOutcome)
    ensures
        outcome@ == lenient_outcome(body@),
        starts_with(body@, users_prefix()) ==> (outcome@ matches OutcomeModel::Found(records)
            && records.len() == 1),
        !starts_with(body@, users_prefix()) ==> outcome@ is NotFound,
{
    let chars = chars_of(body);
    let prefix = chars_of("{\"users\":[");
    if begins_with(&chars, &prefix) {
        let record = ExtractedRecord {
            screen_name: extract_screen_name(body),
            is_verified: extract_is_verified(body),
        };
        let mut records: Vec<ExtractedRecord> = Vec::new();
        records.push(record);
        assert(record_views(records@) =~= seq![(screen_name_in(body@), is_verified_in(body@))]);
        ExtractionOutcome::Found(records)
    } else {
        ExtractionOutcome::NotFound
    }
}

/// Builds a record from what a user object offers, with the empty text
/// for a missing name and `false` for a missing flag.
pub fn record_from_fields(screen_name: Option<&str>, is_verified: Option<bool>) -> (record:
    ExtractedRecord)
    ensures
        record@ == (
            match screen_name {
                Some(name) => name@,
                None => Seq::empty(),
            },
            match is_verified {
                Some(flag) => flag,
                None => false,
            },
        ),
{
    ExtractedRecord {
        screen_name: match screen_name {
            Some(name) => name.to_owned(),
            None => String::new(),
        },
        is_verified: match is_verified {
            Some(flag) => flag,
            None => false,
        },
    }
}

/// Reads the record that a user object stands for.
pub fn record_of_user(user: &serde_json::Value) -> (record: ExtractedRecord)
    ensures
        record@ == record_of_tree(json_tree(*user)),
{
    let screen_name = match member(user, "screen_name") {
        Some(value) => value.as_str(),
        None => None,
    };
    let is_verified = match member(user, "is_verified") {
        Some(value) => value.as_bool(),
        None => None,
    };
    record_from_fields(screen_name, is_verified)
}

/// Reads the records of a parsed document.
pub fn records_of_document(document: &serde_json::Value) -> (outcome: ExtractionOutcome)
    ensures
        outcome@ == document_outcome(json_tree(*document)),
{
    let users = match member(document, "users") {
        Some(value) => value.as_array(),
        None => None,
    };
    match users {
        Some(users) => {
            let mut records: Vec<ExtractedRecord> = Vec::new();
            let mut i: usize = 0;
            while i < users.len()
                invariant
                    i <= users.len(),
                    records.len() == i,
                    forall|k: int|
                        0 <= k < i ==> (#[trigger] records@[k])@ == record_of_tree(
                            json_tree(users@[k]),
                        ),
                decreases users.len() - i,
            {
                records.push(record_of_user(&users[i]));
                i += 1;
            }
            assert(record_views(records@) =~= Seq::new(
                trees_of(users@).len(),
                |k: int| record_of_tree(trees_of(users@)[k]),
            ));
            ExtractionOutcome::Found(records)
        },
        None => ExtractionOutcome::NotFound,
    }
}

/// The structured strategy: a body that is no JSON document yields
/// `InvalidFormat`; a document yields a record for each element of its
/// `users` array, or `NotFound` where it has none.
pub fn extract_structured(body: &str) -> (outcome: ExtractionOutcome)
    ensures
        outcome@ == structured_outcome(body@),
        outcome@ is InvalidFormat <==> json_document(body@) is None,
{
    match parse_document(body) {
        Ok(document) => records_of_document(&document),
        Err(_) => ExtractionOutcome::InvalidFormat,
    }
}

/// Extracts records from a body by the chosen strategy.
pub fn extract(mode: ExtractionMode, body: &str) -> (outcome: ExtractionOutcome)
    ensures
        outcome@ == extraction(mode, body@),
{
    match mode {
        ExtractionMode::LenientText => extract_lenient(body),
        ExtractionMode::StructuredJson => extract_structured(body),
    }
}

} // verus!
