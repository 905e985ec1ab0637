//! What a frame shows of a response, without a cache.

use vstd::prelude::*;
use crate::extract::{extract, extraction, ExtractionMode, ExtractionOutcome, OutcomeModel};
use crate::http::{classification, classify, ContentCategory, HttpParseError, ParsedHttpMessage};
use crate::json::{pretty_or_same, render_json};
use crate::render::{render_unrecognized, unrecognized_text};

verus! {

/// The content of a frame.
#[derive(Clone, Debug, PartialEq, Eq)]
pub enum FrameContent {
    /// An HTML body, to show in a frame of its own.
    Html(String),
    /// A JSON body: the records found in it, and its text laid out for
    /// reading.
    Json { summary: ExtractionOutcome, pretty: String },
    /// A message to show in place of a body that is neither.
    Display(String),
}

/// The content of a frame over plain values.
pub enum FrameModel {
    Html(Seq<char>),
    Json { summary: OutcomeModel, pretty: Seq<char> },
    Display(Seq<char>),
}

impl View for FrameContent {
    type V = FrameModel;

    open spec fn view(&self) -> FrameModel {
        match self {
            FrameContent::Html(body) => FrameModel::Html(body@),
            FrameContent::Json { summary, pretty } => FrameModel::Json {
                summary: summary@,
                pretty: pretty@,
            },
            FrameContent::Display(text) => FrameModel::Display(text@),
        }
    }
}

/// What a frame shows of a body of a given category: an HTML body as it
/// is, a JSON body with its records, and for anything else the message
/// for an unrecognised response.
pub open spec fn frame_of(
    mode: ExtractionMode,
    category: ContentCategory,
    body: Seq<char>,
) -> FrameModel {
    match category {
        ContentCategory::Html => FrameModel::Html(body),
        ContentCategory::Json => FrameModel::Json {
            summary: extraction(mode, body),
            pretty: pretty_or_same(body),
        },
        ContentCategory::Other => FrameModel::Display(unrecognized_text()),
    }
}

/// Decides what a frame shows of what the parser returned.
pub fn frame_content(
    mode: ExtractionMode,
    parsed: &Result<ParsedHttpMessage, HttpParseError>,
) -> (content: FrameContent)
    ensures
        content@ == frame_of(mode, classification(*parsed).0, classification(*parsed).1),
        classification(*parsed).0 is Other ==> content@ == FrameModel::Display(
            unrecognized_text(),
        ),
{
    let (category, body) = classify(parsed);
    match category {
        ContentCategory::Html => FrameContent::Html(body),
        ContentCategory::Json => {
            let summary = extract(mode, body.as_str());
            let pretty = render_json(body.as_str());
            FrameContent::Json { summary, pretty }
        },
        ContentCategory::Other => FrameContent::Display(render_unrecognized()),
    }
}

} // verus!
