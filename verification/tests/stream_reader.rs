use theme_father::models::SynthesisError;
use theme_father::openai_client::{parse_frame, FrameResult, LineSplitter, StreamChunk};
use theme_father::synthesizer::{run_frames, StepVerdict, StreamAccumulator, StreamEvent};

fn frames(lines: &[&str]) -> Vec<String> {
    lines.iter().map(|l| l.to_string()).collect()
}

#[test]
fn two_content_chunks_then_done_accumulate() {
    let input = frames(&[
        "data: {\"choices\":[{\"delta\":{\"content\":\"A\"}}]}",
        "data: {\"choices\":[{\"delta\":{\"content\":\"B\"}}]}",
        "data: [DONE]",
    ]);
    assert_eq!(run_frames(&input).unwrap(), "AB");
}

#[test]
fn sole_done_frame_succeeds_empty() {
    let input = frames(&["data: [DONE]"]);
    assert_eq!(run_frames(&input).unwrap(), "");
}

#[test]
fn malformed_frame_is_a_hard_failure() {
    let input = frames(&[
        "data: {\"choices\":[{\"delta\":{\"content\":\"A\"}}]}",
        "data: {not json",
        "data: {\"choices\":[{\"delta\":{\"content\":\"B\"}}]}",
    ]);
    match run_frames(&input) {
        Err(SynthesisError::ParseError) => {}
        Ok(t) => panic!("partial success {t:?} on malformed frame"),
        Err(_) => panic!("wrong error on malformed frame"),
    }
}

#[test]
fn frames_after_done_are_not_consumed() {
    let input = frames(&[
        "data: {\"choices\":[{\"delta\":{\"content\":\"A\"}}]}",
        "data: [DONE]",
        "data: {\"choices\":[{\"delta\":{\"content\":\"B\"}}]}",
    ]);
    assert_eq!(run_frames(&input).unwrap(), "A");
}

#[test]
fn exhausted_frames_without_done_succeed() {
    let input = frames(&["data: {\"choices\":[{\"delta\":{\"content\":\"partial\"}}]}"]);
    assert_eq!(run_frames(&input).unwrap(), "partial");
}

#[test]
fn lines_without_prefix_are_ignored() {
    let input = frames(&[
        "event: noise",
        "",
        "data: {\"choices\":[{\"delta\":{\"content\":\"X\"}}]}",
        ": comment",
        "data: [DONE]",
    ]);
    assert_eq!(run_frames(&input).unwrap(), "X");
}

#[test]
fn empty_candidate_body_is_skipped() {
    assert!(matches!(parse_frame("data: "), FrameResult::Ignored));
}

#[test]
fn done_marker_parses_as_done() {
    assert!(matches!(
        parse_frame("data: [DONE]"),
        FrameResult::Chunk(StreamChunk::Done)
    ));
}

#[test]
fn content_fragment_parses_as_content() {
    match parse_frame("data: {\"choices\":[{\"delta\":{\"content\":\"hello\"}}]}") {
        FrameResult::Chunk(StreamChunk::Content(s)) => assert_eq!(s, "hello"),
        _ => panic!("content frame not parsed as content"),
    }
}

#[test]
fn empty_content_string_is_a_content_chunk() {
    match parse_frame("data: {\"choices\":[{\"delta\":{\"content\":\"\"}}]}") {
        FrameResult::Chunk(StreamChunk::Content(s)) => assert_eq!(s, ""),
        _ => panic!("empty content string not parsed as content"),
    }
}

#[test]
fn chunk_without_content_is_empty() {
    assert!(matches!(
        parse_frame("data: {\"choices\":[{\"delta\":{}}]}"),
        FrameResult::Chunk(StreamChunk::Empty)
    ));
    assert!(matches!(
        parse_frame("data: {\"choices\":[]}"),
        FrameResult::Chunk(StreamChunk::Empty)
    ));
    assert!(matches!(
        parse_frame("data: {\"choices\":[{\"delta\":{\"content\":null}}]}"),
        FrameResult::Chunk(StreamChunk::Empty)
    ));
}

#[test]
fn malformed_candidate_parses_as_malformed() {
    assert!(matches!(parse_frame("data: {not json"), FrameResult::Malformed));
    assert!(matches!(parse_frame("data: [DONE"), FrameResult::Malformed));
}

#[test]
fn splitter_separates_complete_lines() {
    let mut s = LineSplitter::new();
    let lines = s.push_text("one\ntwo\nthree");
    assert_eq!(lines, ["one", "two"]);
    assert_eq!(s.finish().unwrap(), "three");
    assert!(s.finish().is_none());
}

#[test]
fn splitter_carries_a_frame_across_chunks() {
    let mut s = LineSplitter::new();
    assert!(s.push_text("data: [DO").is_empty());
    let lines = s.push_text("NE]\n");
    assert_eq!(lines, ["data: [DONE]"]);
    assert!(s.finish().is_none());
}

#[test]
fn splitter_handles_empty_lines_and_text() {
    let mut s = LineSplitter::new();
    assert!(s.push_text("").is_empty());
    let lines = s.push_text("\n\nx\n");
    assert_eq!(lines, ["", "", "x"]);
    assert!(s.finish().is_none());
}

#[test]
fn inactivity_with_no_content_times_out() {
    let mut acc = StreamAccumulator::new();
    match acc.step(StreamEvent::Inactive) {
        StepVerdict::Aborted(SynthesisError::StreamTimedOut) => {}
        _ => panic!("empty accumulator did not time out"),
    }
}

#[test]
fn inactivity_after_content_degrades_to_success() {
    let mut acc = StreamAccumulator::new();
    let v = acc.step(StreamEvent::Item(StreamChunk::Content("some text".to_string())));
    assert!(matches!(v, StepVerdict::Continue));
    assert!(matches!(acc.step(StreamEvent::Inactive), StepVerdict::Finished));
    assert_eq!(acc.into_text(), "some text");
}

#[test]
fn transport_failure_aborts_and_discards() {
    let mut acc = StreamAccumulator::new();
    acc.step(StreamEvent::Item(StreamChunk::Content("partial".to_string())));
    match acc.step(StreamEvent::Failed(SynthesisError::TransportError(
        "connection reset".to_string(),
    ))) {
        StepVerdict::Aborted(SynthesisError::TransportError(m)) => {
            assert_eq!(m, "connection reset");
        }
        _ => panic!("transport failure did not abort"),
    }
}

#[test]
fn stream_close_finishes_with_collected_text() {
    let mut acc = StreamAccumulator::new();
    acc.step(StreamEvent::Item(StreamChunk::Content("done so far".to_string())));
    assert!(matches!(acc.step(StreamEvent::Ended), StepVerdict::Finished));
    assert_eq!(acc.text(), "done so far");
}

#[test]
fn empty_chunks_keep_the_stream_alive() {
    let mut acc = StreamAccumulator::new();
    assert!(matches!(
        acc.step(StreamEvent::Item(StreamChunk::Empty)),
        StepVerdict::Continue
    ));
    assert_eq!(acc.text(), "");
}
