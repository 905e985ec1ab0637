//! The content pipeline: a state machine that turns captured responses
//! into display output and keeps one cache slot in step with it.
//!
//! The machine does no I/O.  Each step takes an event and answers with an
//! action for its driver: parse the bytes, write the cache slot, or
//! deliver an output.  The driver carries the action out and reports back
//! with the next event.
//!
//! A response whose category is `Json` is searched for records, and the
//! text that shows them becomes the cached value; it is written to the
//! slot only where it differs from the value held in memory.  A response
//! of category `Html` is passed through untouched.  What becomes of the
//! cached value on a response of category `Other` is a matter of policy,
//! see `CacheOverwritePolicy`.

use vstd::prelude::*;
use crate::extract::ExtractionMode;
use crate::http::{classification, classify, ContentCategory, HttpParseError, ParsedHttpMessage};
use crate::extract::structured_outcome;
use crate::json::json_document;
use crate::render::{
    invalid_format_text, render_twitter_data, render_unrecognized, rendered, unrecognized_text,
};

verus! {

/// The bytes of one captured response.
#[derive(Clone, Debug, PartialEq, Eq)]
pub struct Props {
    pub bytes: Vec<u8>,
}

/// What a response of category `Other` does to the cached value.
#[derive(Clone, Copy, Debug, PartialEq, Eq, Structural)]
pub enum CacheOverwritePolicy {
    /// The fallback message is shown, and the cached value stays as it is.
    KeepLastGood,
    /// The fallback message takes the cached value's place, in memory and
    /// in the slot.
    OverwriteWithFallback,
}

/// The choices that a pipeline is made with.
#[derive(Clone, Copy, Debug, PartialEq, Eq, Structural)]
pub struct PipelineConfig {
    pub extraction_mode: ExtractionMode,
    pub cache_overwrite_policy: CacheOverwritePolicy,
}

/// Where the machine rests between two steps.  Extraction and the
/// passing through of HTML need no outside work and happen within the
/// step that leaves `Classifying`.
#[derive(Clone, Copy, Debug, PartialEq, Eq, Structural)]
pub enum Stage {
    /// No input has been taken yet.
    Idle,
    /// The bytes are with the parser.
    Classifying,
    /// A write to the cache slot is under way.
    Caching,
    /// An output has been delivered; the next input may come.
    Ready,
}

/// Why a write to the cache slot failed.
#[derive(Clone, Debug, PartialEq, Eq)]
pub struct StorageError {
    pub description: String,
}

/// What the machine hands to the presentation.
#[derive(Clone, Debug, PartialEq, Eq)]
pub enum Output {
    /// A text to show.
    Display(String),
    /// The body of an HTML response, to show in a frame of its own.
    Html(String),
}

/// An output over plain values.
pub enum OutputModel {
    Display(Seq<char>),
    Html(Seq<char>),
}

impl View for Output {
    type V = OutputModel;

    open spec fn view(&self) -> OutputModel {
        match self {
            Output::Display(text) => OutputModel::Display(text@),
            Output::Html(body) => OutputModel::Html(body@),
        }
    }
}

/// What the driver reports to the machine.
#[derive(Debug, PartialEq, Eq)]
pub enum PipelineEvent {
    /// A captured response has arrived.
    Input(Props),
    /// The parser has answered.
    Parsed(Result<ParsedHttpMessage, HttpParseError>),
    /// The cache slot has answered a write.
    Stored(Result<(), StorageError>),
}

/// An event over plain values.  Of a parser's answer only the category
/// and the body text matter.
pub enum EventModel {
    Input(Seq<u8>),
    Parsed(ContentCategory, Seq<char>),
    Stored(bool),
}

impl View for PipelineEvent {
    type V = EventModel;

    open spec fn view(&self) -> EventModel {
        match self {
            PipelineEvent::Input(props) => EventModel::Input(props.bytes@),
            PipelineEvent::Parsed(parsed) => EventModel::Parsed(
                classification(*parsed).0,
                classification(*parsed).1,
            ),
            PipelineEvent::Stored(answer) => EventModel::Stored(answer is Ok),
        }
    }
}

/// What the machine asks of its driver.
#[derive(Clone, Debug, PartialEq, Eq)]
pub enum PipelineAction {
    /// Parse the bytes of the input and report with `Parsed`.
    Parse,
    /// Write `text` to the cache slot under `key` and report with
    /// `Stored`.
    Store { key: String, text: String },
    /// Hand the output to the presentation.
    Deliver(Output),
    /// The event did not fit the stage; nothing has changed.
    Ignore,
}

/// An action over plain values.
pub enum ActionModel {
    Parse,
    Store { key: Seq<char>, text: Seq<char> },
    Deliver(OutputModel),
    Ignore,
}

impl View for PipelineAction {
    type V = ActionModel;

    open spec fn view(&self) -> ActionModel {
        match self {
            PipelineAction::Parse => ActionModel::Parse,
            PipelineAction::Store { key, text } => ActionModel::Store { key: key@, text: text@ },
            PipelineAction::Deliver(output) => ActionModel::Deliver(output@),
            PipelineAction::Ignore => ActionModel::Ignore,
        }
    }
}

/// The machine over plain values.
pub struct PipelineModel {
    pub config: PipelineConfig,
    pub stage: Stage,
    /// The cached value as the machine holds it in memory.
    pub cached: Seq<char>,
}

/// The key of the cache slot.
pub open spec fn cache_key_text() -> Seq<char> {
    "app::twitter_data"@
}

/// The text that a slot's content stands for: empty where the slot is.
pub open spec fn slot_text(slot: Option<Seq<char>>) -> Seq<char> {
    match slot {
        Some(text) => text,
        None => Seq::empty(),
    }
}

/// A machine as it is made: idle, with the slot's content for a cached
/// value.
pub open spec fn initial(config: PipelineConfig, slot: Option<Seq<char>>) -> PipelineModel {
    PipelineModel { config, stage: Stage::Idle, cached: slot_text(slot) }
}

/// The machine at rest in `Ready`, its cached value untouched.
pub open spec fn at_rest(machine: PipelineModel) -> PipelineModel {
    PipelineModel { stage: Stage::Ready, ..machine }
}

/// `text` is to be the cached value.  Where it already is, it is
/// delivered at once; where it is not, it is taken into memory and a
/// write to the slot is asked for.
pub open spec fn settle(machine: PipelineModel, text: Seq<char>) -> (PipelineModel, ActionModel) {
    if text == machine.cached {
        (at_rest(machine), ActionModel::Deliver(OutputModel::Display(text)))
    } else {
        (
            PipelineModel { stage: Stage::Caching, cached: text, ..machine },
            ActionModel::Store { key: cache_key_text(), text },
        )
    }
}

/// What the machine makes of a parser's answer.
pub open spec fn on_parsed(machine: PipelineModel, category: ContentCategory, body: Seq<char>) -> (
    PipelineModel,
    ActionModel,
) {
    match category {
        ContentCategory::Html => (
            at_rest(machine),
            ActionModel::Deliver(OutputModel::Html(body)),
        ),
        ContentCategory::Json => settle(machine, rendered(machine.config.extraction_mode, body)),
        ContentCategory::Other => match machine.config.cache_overwrite_policy {
            CacheOverwritePolicy::KeepLastGood => (
                at_rest(machine),
                ActionModel::Deliver(OutputModel::Display(unrecognized_text())),
            ),
            CacheOverwritePolicy::OverwriteWithFallback => settle(machine, unrecognized_text()),
        },
    }
}

/// One step of the machine: the state after the event, and the action
/// asked of the driver.
pub open spec fn next(machine: PipelineModel, event: EventModel) -> (PipelineModel, ActionModel) {
    match (machine.stage, event) {
        (Stage::Idle, EventModel::Input(bytes)) | (Stage::Ready, EventModel::Input(bytes)) => {
            if bytes.len() == 0 {
                (at_rest(machine), ActionModel::Deliver(OutputModel::Display(machine.cached)))
            } else {
                (PipelineModel { stage: Stage::Classifying, ..machine }, ActionModel::Parse)
            }
        },
        (Stage::Classifying, EventModel::Parsed(category, body)) => on_parsed(
            machine,
            category,
            body,
        ),
        (Stage::Caching, EventModel::Stored(_)) => (
            at_rest(machine),
            ActionModel::Deliver(OutputModel::Display(machine.cached)),
        ),
        _ => (machine, ActionModel::Ignore),
    }
}

/// The key of the cache slot.
pub fn cache_key() -> (key: String)
    ensures
        key@ == cache_key_text(),
{
    "app::twitter_data".to_owned()
}

/// The content pipeline.
pub struct ContentPipeline {
    config: PipelineConfig,
    stage: Stage,
    cached: String,
}

impl View for ContentPipeline {
    type V = PipelineModel;

    closed spec fn view(&self) -> PipelineModel {
        PipelineModel { config: self.config, stage: self.stage, cached: self.cached@ }
    }
}

impl ContentPipeline {
    /// Makes a pipeline from what the cache slot held at the start.
    pub fn new(config: PipelineConfig, loaded: Option<String>) -> (pipeline: Self)
        ensures
            pipeline@ == initial(
                config,
                match loaded {
                    Some(text) => Some(text@),
                    None => None,
                },
            ),
    {
        let cached = match loaded {
            Some(text) => text,
            None => String::new(),
        };
        ContentPipeline { config, stage: Stage::Idle, cached }
    }

    /// The choices that the pipeline was made with.
    pub fn config(&self) -> (config: PipelineConfig)
        ensures
            config == self@.config,
    {
        self.config
    }

    /// Where the machine rests.
    pub fn stage(&self) -> (stage: Stage)
        ensures
            stage == self@.stage,
    {
        self.stage
    }

    /// The cached value as held in memory.
    pub fn cached(&self) -> (text: &str)
        ensures
            text@ == self@.cached,
    {
        self.cached.as_str()
    }

    /// Takes `text` for the cached value and asks for a write, unless it
    /// is the cached value already.
    fn settle(&mut self, text: String) -> (action: PipelineAction)
        ensures
            (final(self)@, action@) == settle(old(self)@, text@),
    {
        if text == self.cached {
            self.stage = Stage::Ready;
            PipelineAction::Deliver(Output::Display(text))
        } else {
            self.stage = Stage::Caching;
            self.cached = text.clone();
            PipelineAction::Store { key: cache_key(), text }
        }
    }

    /// Takes one event and answers with the action that the driver owes.
    pub fn step(&mut self, event: PipelineEvent) -> (action: PipelineAction)
        ensures
            (final(self)@, action@) == next(old(self)@, event@),
    {
        match event {
            PipelineEvent::Input(props) => match self.stage {
                Stage::Idle | Stage::Ready => {
                    if props.bytes.len() == 0 {
                        self.stage = Stage::Ready;
                        PipelineAction::Deliver(Output::Display(self.cached.clone()))
                    } else {
                        self.stage = Stage::Classifying;
                        PipelineAction::Parse
                    }
                },
                _ => PipelineAction::Ignore,
            },
            PipelineEvent::Parsed(parsed) => match self.stage {
                Stage::Classifying => {
                    let (category, body) = classify(&parsed);
                    match category {
                        ContentCategory::Html => {
                            self.stage = Stage::Ready;
                            PipelineAction::Deliver(Output::Html(body))
                        },
                        ContentCategory::Json => {
                            let text = render_twitter_data(
                                self.config.extraction_mode,
                                body.as_str(),
                            );
                            self.settle(text)
                        },
                        ContentCategory::Other => match self.config.cache_overwrite_policy {
                            CacheOverwritePolicy::KeepLastGood => {
                                self.stage = Stage::Ready;
                                PipelineAction::Deliver(Output::Display(render_unrecognized()))
                            },
                            CacheOverwritePolicy::OverwriteWithFallback => self.settle(
                                render_unrecognized(),
                            ),
                        },
                    }
                },
                _ => PipelineAction::Ignore,
            },
            PipelineEvent::Stored(_) => match self.stage {
                Stage::Caching => {
                    self.stage = Stage::Ready;
                    PipelineAction::Deliver(Output::Display(self.cached.clone()))
                },
                _ => PipelineAction::Ignore,
            },
        }
    }
}

/// One pass of the machine, from the arrival of an input to the delivery
/// of an output.
pub struct PassModel {
    /// The machine after the pass.
    pub end: PipelineModel,
    /// What was delivered.
    pub output: OutputModel,
    /// The text that the driver was asked to write to the slot, if any.
    pub write: Option<Seq<char>>,
}

/// The pass that `bytes` sets off, for a driver whose parser finds
/// `category` and `body` in them and whose slot answers a write with
/// `stored`.  There is none where the machine is not ready for an input.
pub open spec fn pass(
    machine: PipelineModel,
    bytes: Seq<u8>,
    category: ContentCategory,
    body: Seq<char>,
    stored: bool,
) -> Option<PassModel> {
    let (taken, first) = next(machine, EventModel::Input(bytes));
    match first {
        ActionModel::Deliver(output) => Some(PassModel { end: taken, output, write: None }),
        ActionModel::Parse => {
            let (decided, second) = next(taken, EventModel::Parsed(category, body));
            match second {
                ActionModel::Deliver(output) => Some(
                    PassModel { end: decided, output, write: None },
                ),
                ActionModel::Store { key, text } => {
                    let (written, third) = next(decided, EventModel::Stored(stored));
                    match third {
                        ActionModel::Deliver(output) => Some(
                            PassModel { end: written, output, write: Some(text) },
                        ),
                        _ => None,
                    }
                },
                _ => None,
            }
        },
        _ => None,
    }
}

/// What the slot holds after a pass, given what it held before and
/// whether the write, if one was asked for, went through.
pub open spec fn slot_after(slot: Option<Seq<char>>, done: PassModel, stored: bool) -> Option<
    Seq<char>,
> {
    match done.write {
        Some(text) => if stored {
            Some(text)
        } else {
            slot
        },
        None => slot,
    }
}

/// The machine is ready for an input.
pub open spec fn accepts_input(machine: PipelineModel) -> bool {
    machine.stage is Idle || machine.stage is Ready
}

/// Every pass ends in `Ready` with an output, whatever the input and
/// whatever the parser and the slot answer; and a failed write changes
/// neither the output nor the state in which the pass ends.
pub proof fn lemma_pass_delivers(
    machine: PipelineModel,
    bytes: Seq<u8>,
    category: ContentCategory,
    body: Seq<char>,
    stored: bool,
)
    requires
        accepts_input(machine),
    ensures
        pass(machine, bytes, category, body, stored) matches Some(done) && done.end.stage is Ready
            && done.end.config == machine.config,
        pass(machine, bytes, category, body, stored) == pass(
            machine,
            bytes,
            category,
            body,
            !stored,
        ),
{
}

/// An empty input is answered with the cached value, and nothing is
/// written.
pub proof fn lemma_empty_input_shows_cached(
    machine: PipelineModel,
    category: ContentCategory,
    body: Seq<char>,
    stored: bool,
)
    requires
        accepts_input(machine),
    ensures
        pass(machine, Seq::empty(), category, body, stored) == Some(
            PassModel {
                end: at_rest(machine),
                output: OutputModel::Display(machine.cached),
                write: None,
            },
        ),
{
}

/// A `Json` response is answered with the text that shows its records,
/// which is the cached value from then on; it is written to the slot
/// exactly where it differs from the value that was cached before.
pub proof fn lemma_json_pass(
    machine: PipelineModel,
    bytes: Seq<u8>,
    body: Seq<char>,
    stored: bool,
)
    requires
        accepts_input(machine),
        bytes.len() > 0,
    ensures
        pass(machine, bytes, ContentCategory::Json, body, stored) matches Some(done) && {
            let text = rendered(machine.config.extraction_mode, body);
            &&& done.output == OutputModel::Display(text)
            &&& done.end.cached == text
            &&& done.write == if text == machine.cached {
                None
            } else {
                Some(text)
            }
        },
{
}

/// Under the structured strategy a `Json` response whose body is no JSON
/// document is answered with the message for an invalid format, and the
/// pass ends in `Ready` like any other.
pub proof fn lemma_malformed_json_pass(
    machine: PipelineModel,
    bytes: Seq<u8>,
    body: Seq<char>,
    stored: bool,
)
    requires
        accepts_input(machine),
        bytes.len() > 0,
        machine.config.extraction_mode is StructuredJson,
        json_document(body) is None,
    ensures
        pass(machine, bytes, ContentCategory::Json, body, stored) matches Some(done)
            && done.output == OutputModel::Display(invalid_format_text()) && done.end.stage
            is Ready && done.end.cached == invalid_format_text(),
{
    assert(structured_outcome(body) is InvalidFormat);
}

/// A response of category `Html`, and under `KeepLastGood` one of
/// category `Other`, leaves the cached value as it is and writes
/// nothing.
pub proof fn lemma_cache_kept(
    machine: PipelineModel,
    bytes: Seq<u8>,
    category: ContentCategory,
    body: Seq<char>,
    stored: bool,
)
    requires
        accepts_input(machine),
        category is Html || (category is Other && machine.config.cache_overwrite_policy
            is KeepLastGood),
    ensures
        pass(machine, bytes, category, body, stored) matches Some(done) && done.end.cached
            == machine.cached && done.write is None,
{
}

/// Two passes on one `Json` response deliver the same output, and the
/// second one writes nothing: between them they write at most once.
pub proof fn lemma_json_pass_idempotent(
    machine: PipelineModel,
    bytes: Seq<u8>,
    body: Seq<char>,
    first_stored: bool,
    second_stored: bool,
)
    requires
        accepts_input(machine),
        bytes.len() > 0,
    ensures
        pass(machine, bytes, ContentCategory::Json, body, first_stored) matches Some(first)
            && pass(first.end, bytes, ContentCategory::Json, body, second_stored) matches Some(
            second,
        ) && second.output == first.output && second.write is None && second.end == first.end,
{
}

/// What a `Json` pass delivers is what a pipeline made afresh from the
/// slot shows on an empty input, provided that the slot agreed with the
/// cached value before the pass and took the write that the pass asked
/// for.
pub proof fn lemma_cache_outlives_pipeline(
    machine: PipelineModel,
    slot: Option<Seq<char>>,
    bytes: Seq<u8>,
    body: Seq<char>,
    config: PipelineConfig,
    category: ContentCategory,
    later_body: Seq<char>,
    stored: bool,
)
    requires
        accepts_input(machine),
        machine.cached == slot_text(slot),
        bytes.len() > 0,
    ensures
        pass(machine, bytes, ContentCategory::Json, body, true) matches Some(first) && pass(
            initial(config, slot_after(slot, first, true)),
            Seq::empty(),
            category,
            later_body,
            stored,
        ) matches Some(second) && second.output == first.output && second.output
            == OutputModel::Display(rendered(machine.config.extraction_mode, body))
            && second.write is None,
{
}

} // verus!
