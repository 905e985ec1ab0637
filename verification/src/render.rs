//! The display text of an extraction outcome.

use vstd::prelude::*;
use crate::extract::{
    extract, extraction, record_views, ExtractedRecord, ExtractionMode, ExtractionOutcome,
    OutcomeModel,
};

verus! {

/// The text shown where a body holds no user records.
pub open spec fn not_found_text() -> Seq<char> {
    "No Twitter data found or format is not recognized."@
}

/// The text shown where a body is no JSON document.
pub open spec fn invalid_format_text() -> Seq<char> {
    "Invalid JSON format."@
}

/// The text shown for a response that is neither HTML nor JSON.
pub open spec fn unrecognized_text() -> Seq<char> {
    "Non-JSON format or unrecognized data."@
}

/// The text of a flag.
pub open spec fn flag_text(flag: bool) -> Seq<char> {
    if flag {
        "true"@
    } else {
        "false"@
    }
}

/// The two lines, and the blank line after them, that show one record.
pub open spec fn record_text(record: (Seq<char>, bool)) -> Seq<char> {
    "Screen Name: "@ + record.0 + "\nIs Verified: "@ + flag_text(record.1) + "\n\n"@
}

/// The texts of a run of records, one after the other.
pub open spec fn records_text(records: Seq<(Seq<char>, bool)>) -> Seq<char>
    decreases records.len(),
{
    if records.len() == 0 {
        Seq::empty()
    } else {
        records_text(records.drop_last()) + record_text(records.last())
    }
}

/// The display text of an outcome: the records' texts where some were
/// found, and a fixed message for each of the other outcomes.
pub open spec fn display_text(outcome: OutcomeModel) -> Seq<char> {
    match outcome {
        OutcomeModel::Found(records) => records_text(records),
        OutcomeModel::NotFound => not_found_text(),
        OutcomeModel::InvalidFormat => invalid_format_text(),
    }
}

/// The display text of a body under a strategy.
pub open spec fn rendered(mode: ExtractionMode, body: Seq<char>) -> Seq<char> {
    display_text(extraction(mode, body))
}

/// Writes out one record.
pub fn render_record(record: &ExtractedRecord) -> (text: String)
    ensures
        text@ == record_text(record@),
{
    let mut text = String::new();
    text.append("Screen Name: ");
    text.append(record.screen_name.as_str());
    text.append("\nIs Verified: ");
    if record.is_verified {
        text.append("true");
    } else {
        text.append("false");
    }
    text.append("\n\n");
    assert(text@ =~= record_text(record@));
    text
}

/// Writes out an outcome.
pub fn render_outcome(outcome: &ExtractionOutcome) -> (text: String)
    ensures
        text@ == display_text(outcome@),
{
    match outcome {
        ExtractionOutcome::Found(records) => {
            let mut text = String::new();
            let mut i: usize = 0;
            while i < records.len()
                invariant
                    i <= records.len(),
                    text@ == records_text(record_views(records@.take(i as int))),
                decreases records.len() - i,
            {
                let line = render_record(&records[i]);
                proof {
                    let before = record_views(records@.take(i as int));
                    let after = record_views(records@.take(i + 1));
                    assert(after.drop_last() =~= before);
                    assert(after.last() == records@[i as int]@);
                }
                text.append(line.as_str());
                i += 1;
            }
            assert(records@.take(i as int) =~= records@);
            text
        },
        ExtractionOutcome::NotFound => {
            "No Twitter data found or format is not recognized.".to_owned()
        },
        ExtractionOutcome::InvalidFormat => "Invalid JSON format.".to_owned(),
    }
}

/// Writes out the message for a response that is neither HTML nor JSON.
pub fn render_unrecognized() -> (text: String)
    ensures
        text@ == unrecognized_text(),
{
    "Non-JSON format or unrecognized data.".to_owned()
}

/// Extracts the records of a body and writes them out.
pub fn render_twitter_data(mode: ExtractionMode, content: &str) -> (text: String)
    ensures
        text@ == rendered(mode, content@),
{
    let outcome = extract(mode, content);
    render_outcome(&outcome)
}

} // verus!
