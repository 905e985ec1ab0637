//! The passport stamp: the users that a Twitter API response lists.

use vstd::prelude::*;
use crate::extract::{extract_structured, structured_outcome, ExtractionOutcome, OutcomeModel};

verus! {

/// What a stamp is made from: the domain that answered, and the JSON text
/// of its answer.
#[derive(Clone, Debug, PartialEq, Eq)]
pub struct PassportStampsProps {
    pub server_domain: String,
    pub json_data: String,
}

/// The domain whose answers carry user records.
pub open spec fn twitter_domain() -> Seq<char> {
    "api.twitter.com"@
}

/// What a stamp reads: nothing in an answer from another domain, and in
/// one from the Twitter API the outcome of the structured strategy, with
/// every user of the answer in the order in which it lists them.
pub open spec fn stamp_reading(server_domain: Seq<char>, json_data: Seq<char>) -> Option<
    OutcomeModel,
> {
    if server_domain == twitter_domain() {
        Some(structured_outcome(json_data))
    } else {
        None
    }
}

/// Reads the users that a stamp is made from.
pub fn passport_stamps(props: &PassportStampsProps) -> (reading: Option<ExtractionOutcome>)
    ensures
        match reading {
            Some(outcome) => stamp_reading(props.server_domain@, props.json_data@) == Some(
                outcome@,
            ),
            None => stamp_reading(props.server_domain@, props.json_data@) is None,
        },
        reading is Some <==> props.server_domain@ == twitter_domain(),
{
    let twitter = "api.twitter.com".to_owned();
    if props.server_domain == twitter {
        Some(extract_structured(props.json_data.as_str()))
    } else {
        None
    }
}

} // verus!
