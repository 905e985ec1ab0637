use content_pipeline::extract::ExtractionMode;
use content_pipeline::http::{Header, HttpParseError, ParsedHttpMessage};
use content_pipeline::pipeline::{
    cache_key, CacheOverwritePolicy, ContentPipeline, Output, PipelineAction, PipelineConfig,
    PipelineEvent, Props, Stage, StorageError,
};

const BODY: &str = "{\"users\":[{\"is_verified\":true,\"screen_name\":\"alice\"}]}";
const SHOWN: &str = "Screen Name: alice\nIs Verified: true\n\n";
const UNRECOGNIZED: &str = "Non-JSON format or unrecognized data.";

fn config(mode: ExtractionMode, policy: CacheOverwritePolicy) -> PipelineConfig {
    PipelineConfig { extraction_mode: mode, cache_overwrite_policy: policy }
}

fn lenient() -> PipelineConfig {
    config(ExtractionMode::LenientText, CacheOverwritePolicy::KeepLastGood)
}

fn input(bytes: &[u8]) -> PipelineEvent {
    PipelineEvent::Input(Props { bytes: bytes.to_vec() })
}

fn response(content_type: Option<&str>, body: &str) -> PipelineEvent {
    let headers = match content_type {
        Some(value) => vec![Header { name: "Content-Type".to_string(), value: value.as_bytes().to_vec() }],
        None => vec![],
    };
    PipelineEvent::Parsed(Ok(ParsedHttpMessage { headers, body: Some(body.as_bytes().to_vec()) }))
}

fn json(body: &str) -> PipelineEvent {
    response(Some("application/json; charset=utf-8"), body)
}

fn display(text: &str) -> PipelineAction {
    PipelineAction::Deliver(Output::Display(text.to_string()))
}

fn store(text: &str) -> PipelineAction {
    PipelineAction::Store { key: "app::twitter_data".to_string(), text: text.to_string() }
}

/// A slot that counts its writes, and the loop that a driver runs.
struct Slot {
    value: Option<String>,
    writes: usize,
    fails: bool,
}

fn run(pipeline: &mut ContentPipeline, slot: &mut Slot, bytes: &[u8], parsed: PipelineEvent) -> Output {
    let mut parsed = Some(parsed);
    let mut action = pipeline.step(input(bytes));
    loop {
        action = match action {
            PipelineAction::Parse => pipeline.step(parsed.take().unwrap()),
            PipelineAction::Store { key, text } => {
                assert_eq!(key, cache_key());
                if slot.fails {
                    pipeline.step(PipelineEvent::Stored(Err(StorageError {
                        description: "quota exceeded".to_string(),
                    })))
                } else {
                    slot.value = Some(text);
                    slot.writes += 1;
                    pipeline.step(PipelineEvent::Stored(Ok(())))
                }
            }
            PipelineAction::Deliver(output) => return output,
            PipelineAction::Ignore => panic!("the machine ignored an event"),
        };
    }
}

#[test]
fn the_cache_key_is_fixed() {
    assert_eq!(cache_key(), "app::twitter_data");
}

#[test]
fn a_new_pipeline_is_idle_and_holds_what_was_loaded() {
    let pipeline = ContentPipeline::new(lenient(), Some("old".to_string()));
    assert_eq!(pipeline.stage(), Stage::Idle);
    assert_eq!(pipeline.cached(), "old");
    assert_eq!(pipeline.config(), lenient());
    let pipeline = ContentPipeline::new(lenient(), None);
    assert_eq!(pipeline.cached(), "");
}

#[test]
fn an_empty_input_shows_the_cached_value_at_once() {
    let mut pipeline = ContentPipeline::new(lenient(), Some("old".to_string()));
    assert_eq!(pipeline.step(input(b"")), display("old"));
    assert_eq!(pipeline.stage(), Stage::Ready);
    assert_eq!(pipeline.cached(), "old");
    assert_eq!(pipeline.step(input(b"")), display("old"));
}

#[test]
fn an_empty_input_on_an_empty_slot_shows_the_empty_text() {
    let mut pipeline = ContentPipeline::new(lenient(), None);
    assert_eq!(pipeline.step(input(b"")), display(""));
    assert_eq!(pipeline.stage(), Stage::Ready);
}

#[test]
fn a_json_response_goes_through_every_stage() {
    let mut pipeline = ContentPipeline::new(lenient(), None);
    assert_eq!(pipeline.step(input(b"HTTP/1.1 200 OK\r\n\r\n")), PipelineAction::Parse);
    assert_eq!(pipeline.stage(), Stage::Classifying);
    assert_eq!(pipeline.step(json(BODY)), store(SHOWN));
    assert_eq!(pipeline.stage(), Stage::Caching);
    assert_eq!(pipeline.cached(), SHOWN);
    assert_eq!(pipeline.step(PipelineEvent::Stored(Ok(()))), display(SHOWN));
    assert_eq!(pipeline.stage(), Stage::Ready);
    assert_eq!(pipeline.cached(), SHOWN);
}

#[test]
fn the_same_json_twice_is_written_once() {
    let mut pipeline = ContentPipeline::new(lenient(), None);
    let mut slot = Slot { value: None, writes: 0, fails: false };
    let first = run(&mut pipeline, &mut slot, b"x", json(BODY));
    let second = run(&mut pipeline, &mut slot, b"x", json(BODY));
    assert_eq!(first, Output::Display(SHOWN.to_string()));
    assert_eq!(second, first);
    assert_eq!(slot.writes, 1);
    assert_eq!(slot.value, Some(SHOWN.to_string()));
}

#[test]
fn the_second_pass_skips_the_caching_stage() {
    let mut pipeline = ContentPipeline::new(lenient(), None);
    assert_eq!(pipeline.step(input(b"x")), PipelineAction::Parse);
    assert_eq!(pipeline.step(json(BODY)), store(SHOWN));
    assert_eq!(pipeline.step(PipelineEvent::Stored(Ok(()))), display(SHOWN));
    assert_eq!(pipeline.step(input(b"x")), PipelineAction::Parse);
    assert_eq!(pipeline.step(json(BODY)), display(SHOWN));
    assert_eq!(pipeline.stage(), Stage::Ready);
}

#[test]
fn json_that_matches_the_loaded_value_is_not_written() {
    let mut pipeline = ContentPipeline::new(lenient(), Some(SHOWN.to_string()));
    let mut slot = Slot { value: Some(SHOWN.to_string()), writes: 0, fails: false };
    assert_eq!(run(&mut pipeline, &mut slot, b"x", json(BODY)), Output::Display(SHOWN.to_string()));
    assert_eq!(slot.writes, 0);
}

#[test]
fn a_fresh_pipeline_shows_what_an_earlier_one_cached() {
    let mut slot = Slot { value: None, writes: 0, fails: false };
    let mut earlier = ContentPipeline::new(lenient(), slot.value.clone());
    let shown = run(&mut earlier, &mut slot, b"x", json(BODY));
    let mut fresh = ContentPipeline::new(
        config(ExtractionMode::StructuredJson, CacheOverwritePolicy::OverwriteWithFallback),
        slot.value.clone(),
    );
    assert_eq!(fresh.step(input(b"")), PipelineAction::Deliver(shown));
    assert_eq!(fresh.step(input(b"")), display(SHOWN));
    assert_eq!(slot.writes, 1);
}

#[test]
fn a_failed_write_is_swallowed() {
    let mut pipeline = ContentPipeline::new(lenient(), None);
    let mut slot = Slot { value: None, writes: 0, fails: true };
    assert_eq!(run(&mut pipeline, &mut slot, b"x", json(BODY)), Output::Display(SHOWN.to_string()));
    assert_eq!(pipeline.stage(), Stage::Ready);
    assert_eq!(pipeline.cached(), SHOWN);
    assert_eq!(slot.value, None);
    assert_eq!(pipeline.step(input(b"")), display(SHOWN));
}

#[test]
fn new_json_replaces_the_cached_value() {
    let mut pipeline = ContentPipeline::new(lenient(), Some(SHOWN.to_string()));
    let mut slot = Slot { value: Some(SHOWN.to_string()), writes: 0, fails: false };
    let body = "{\"users\":[{\"is_verified\":false,\"screen_name\":\"bob\"}]}";
    let shown = "Screen Name: bob\nIs Verified: false\n\n";
    assert_eq!(run(&mut pipeline, &mut slot, b"x", json(body)), Output::Display(shown.to_string()));
    assert_eq!(slot.value, Some(shown.to_string()));
    assert_eq!(slot.writes, 1);
}

#[test]
fn json_without_records_caches_the_fallback() {
    let mut pipeline = ContentPipeline::new(lenient(), None);
    let mut slot = Slot { value: None, writes: 0, fails: false };
    let shown = "No Twitter data found or format is not recognized.";
    assert_eq!(run(&mut pipeline, &mut slot, b"x", json("[1]")), Output::Display(shown.to_string()));
    assert_eq!(slot.value, Some(shown.to_string()));
}

#[test]
fn malformed_json_does_not_stop_the_structured_pipeline() {
    let mut pipeline = ContentPipeline::new(
        config(ExtractionMode::StructuredJson, CacheOverwritePolicy::KeepLastGood),
        None,
    );
    let mut slot = Slot { value: None, writes: 0, fails: false };
    assert_eq!(
        run(&mut pipeline, &mut slot, b"x", json("{\"users\":")),
        Output::Display("Invalid JSON format.".to_string())
    );
    assert_eq!(pipeline.stage(), Stage::Ready);
    assert_eq!(run(&mut pipeline, &mut slot, b"x", json(BODY)), Output::Display(SHOWN.to_string()));
}

#[test]
fn the_structured_pipeline_shows_every_user() {
    let mut pipeline = ContentPipeline::new(
        config(ExtractionMode::StructuredJson, CacheOverwritePolicy::KeepLastGood),
        None,
    );
    let mut slot = Slot { value: None, writes: 0, fails: false };
    let body = "{\"users\":[{\"screen_name\":\"alice\",\"is_verified\":true},{\"screen_name\":\"bob\",\"is_verified\":false}]}";
    assert_eq!(
        run(&mut pipeline, &mut slot, b"x", json(body)),
        Output::Display(
            "Screen Name: alice\nIs Verified: true\n\nScreen Name: bob\nIs Verified: false\n\n"
                .to_string()
        )
    );
}

#[test]
fn html_is_passed_through_and_leaves_the_cache_alone() {
    let mut pipeline = ContentPipeline::new(lenient(), Some("old".to_string()));
    let mut slot = Slot { value: Some("old".to_string()), writes: 0, fails: false };
    let page = "<html><body>{\"users\":[</body></html>";
    assert_eq!(
        run(&mut pipeline, &mut slot, b"x", response(Some("text/html; charset=utf-8"), page)),
        Output::Html(page.to_string())
    );
    assert_eq!(pipeline.stage(), Stage::Ready);
    assert_eq!(pipeline.cached(), "old");
    assert_eq!(slot.writes, 0);
}

#[test]
fn other_content_keeps_the_last_good_value_by_policy() {
    let mut pipeline = ContentPipeline::new(lenient(), Some(SHOWN.to_string()));
    let mut slot = Slot { value: Some(SHOWN.to_string()), writes: 0, fails: false };
    assert_eq!(
        run(&mut pipeline, &mut slot, b"x", response(Some("image/png"), BODY)),
        Output::Display(UNRECOGNIZED.to_string())
    );
    assert_eq!(pipeline.cached(), SHOWN);
    assert_eq!(slot.writes, 0);
    assert_eq!(pipeline.step(input(b"")), display(SHOWN));
}

#[test]
fn other_content_overwrites_the_cache_by_policy() {
    let overwrite = config(ExtractionMode::LenientText, CacheOverwritePolicy::OverwriteWithFallback);
    let mut pipeline = ContentPipeline::new(overwrite, Some(SHOWN.to_string()));
    let mut slot = Slot { value: Some(SHOWN.to_string()), writes: 0, fails: false };
    assert_eq!(
        run(&mut pipeline, &mut slot, b"x", response(None, BODY)),
        Output::Display(UNRECOGNIZED.to_string())
    );
    assert_eq!(pipeline.cached(), UNRECOGNIZED);
    assert_eq!(slot.value, Some(UNRECOGNIZED.to_string()));
    assert_eq!(run(&mut pipeline, &mut slot, b"x", response(None, BODY)), Output::Display(UNRECOGNIZED.to_string()));
    assert_eq!(slot.writes, 1);
}

#[test]
fn a_parse_failure_counts_as_other() {
    let failure = || PipelineEvent::Parsed(Err(HttpParseError { description: "bad".to_string() }));
    let mut pipeline = ContentPipeline::new(lenient(), Some("old".to_string()));
    let mut slot = Slot { value: Some("old".to_string()), writes: 0, fails: false };
    assert_eq!(run(&mut pipeline, &mut slot, b"garbage", failure()), Output::Display(UNRECOGNIZED.to_string()));
    assert_eq!(pipeline.cached(), "old");
    assert_eq!(slot.writes, 0);
}

#[test]
fn events_that_do_not_fit_the_stage_are_ignored() {
    let mut pipeline = ContentPipeline::new(lenient(), Some("old".to_string()));
    assert_eq!(pipeline.step(json(BODY)), PipelineAction::Ignore);
    assert_eq!(pipeline.step(PipelineEvent::Stored(Ok(()))), PipelineAction::Ignore);
    assert_eq!(pipeline.stage(), Stage::Idle);
    assert_eq!(pipeline.cached(), "old");
    assert_eq!(pipeline.step(input(b"x")), PipelineAction::Parse);
    assert_eq!(pipeline.step(input(b"y")), PipelineAction::Ignore);
    assert_eq!(pipeline.step(PipelineEvent::Stored(Ok(()))), PipelineAction::Ignore);
    assert_eq!(pipeline.stage(), Stage::Classifying);
    assert_eq!(pipeline.step(json(BODY)), store(SHOWN));
    assert_eq!(pipeline.step(input(b"")), PipelineAction::Ignore);
    assert_eq!(pipeline.step(json(BODY)), PipelineAction::Ignore);
    assert_eq!(pipeline.stage(), Stage::Caching);
    assert_eq!(pipeline.step(PipelineEvent::Stored(Ok(()))), display(SHOWN));
    assert_eq!(pipeline.step(json(BODY)), PipelineAction::Ignore);
    assert_eq!(pipeline.stage(), Stage::Ready);
}
