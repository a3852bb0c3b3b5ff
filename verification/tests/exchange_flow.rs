use body_transform::accumulator::ByteAccumulator;
use body_transform::exchange::{
    content_length_text, write_content_length, ChunkOutcome, Directive, DirectionState,
    ExchangeContext, Phase,
};
use body_transform::headers::{HeaderContext, HeaderRule};
use body_transform::json::JsonConstant;
use body_transform::json_rules::{JsonContext, JsonRule, JsonRuleEngine};

fn s(text: &str) -> String {
    text.to_string()
}

fn context() -> JsonContext {
    JsonContext { now: Some(s("2024-05-06T07:08:09+00:00")), headers: vec![] }
}

fn exchange() -> ExchangeContext {
    ExchangeContext::new(
        vec![HeaderRule::AddHeader { name: s("X-Custom-Header"), value: s("processed-by-wasm") }],
        vec![HeaderRule::AddHeader { name: s("X-Frame-Options"), value: s("DENY") }],
        vec![JsonRule::RemoveFields { keys: vec![s("password")] }],
        vec![JsonRule::InsertConstant { key: s("success"), value: JsonConstant::Flag(true) }],
    )
}

#[test]
fn accumulates_chunks_until_end_of_stream() {
    let mut acc = ByteAccumulator::new();
    assert!(!acc.is_finalized());
    acc.append(b"ab", false);
    assert!(!acc.is_finalized());
    assert_eq!(acc.len(), 2);
    acc.append(b"cd", true);
    assert!(acc.is_finalized());
    assert_eq!(acc.as_slice(), b"abcd");
    assert_eq!(acc.take_all(), b"abcd".to_vec());
}

#[test]
fn accumulator_replace_and_release() {
    let mut acc = ByteAccumulator::new();
    acc.append(b"", false);
    acc.append(b"xyz", true);
    acc.replace(b"12".to_vec());
    assert!(acc.is_finalized());
    assert_eq!(acc.len(), 2);
    acc.release();
    assert_eq!(acc.len(), 0);
    assert!(acc.is_finalized());
}

#[test]
fn direction_holds_until_the_last_chunk() {
    let engine = JsonRuleEngine::new(vec![JsonRule::RemoveFields { keys: vec![s("b")] }]);
    let mut dir = DirectionState::new();
    assert_eq!(dir.current_phase(), Phase::Idle);
    dir.on_headers();
    assert_eq!(dir.current_phase(), Phase::Accumulating);
    assert!(matches!(dir.on_chunk(b"{\"a\":1,", false, &engine, &context()), ChunkOutcome::Hold));
    assert_eq!(dir.current_phase(), Phase::Accumulating);
    match dir.on_chunk(b" \"b\":2}", true, &engine, &context()) {
        ChunkOutcome::Release { body, content_length } => {
            assert_eq!(body, b"{\"a\":1}".to_vec());
            assert_eq!(content_length, "7");
        }
        ChunkOutcome::Hold => panic!("the last chunk releases the body"),
    }
    assert_eq!(dir.current_phase(), Phase::Finalized);
}

#[test]
fn content_length_matches_the_released_body() {
    let engine = JsonRuleEngine::new(vec![JsonRule::InsertConstant {
        key: s("processed_by"),
        value: JsonConstant::Text(s("wasm-filter")),
    }]);
    for input in ["{}", "{\"k\":\"\u{e9}\u{4e2d}\"}", "broken", "", "[ 1 ]"] {
        let mut dir = DirectionState::new();
        match dir.on_chunk(input.as_bytes(), true, &engine, &context()) {
            ChunkOutcome::Release { body, content_length } => {
                assert_eq!(content_length, body.len().to_string());
                assert_eq!(content_length, content_length_text(&body));
            }
            ChunkOutcome::Hold => panic!("the last chunk releases the body"),
        }
    }
}

#[test]
fn malformed_body_is_released_unchanged() {
    let engine = JsonRuleEngine::new(vec![JsonRule::RemoveFields { keys: vec![s("a")] }]);
    let mut dir = DirectionState::new();
    assert!(matches!(dir.on_chunk(&[0xff], false, &engine, &context()), ChunkOutcome::Hold));
    match dir.on_chunk(b"{}", true, &engine, &context()) {
        ChunkOutcome::Release { body, content_length } => {
            assert_eq!(body, vec![0xff, b'{', b'}']);
            assert_eq!(content_length, "3");
        }
        ChunkOutcome::Hold => panic!("the last chunk releases the body"),
    }
}

#[test]
fn write_content_length_sets_or_adds_the_header() {
    let mut headers = vec![(s("content-length"), s("999")), (s("x"), s("y"))];
    write_content_length(&mut headers, b"hello world!");
    assert_eq!(headers, vec![(s("content-length"), s("12")), (s("x"), s("y"))]);
    let mut none = vec![(s("x"), s("y"))];
    write_content_length(&mut none, b"");
    assert_eq!(none, vec![(s("x"), s("y")), (s("content-length"), s("0"))]);
}

#[test]
fn exchange_runs_both_directions() {
    let mut ex = exchange();
    assert_eq!(ex.request_phase(), Phase::Idle);
    assert_eq!(ex.response_phase(), Phase::Idle);

    let mut request_headers = vec![(s("host"), s("h"))];
    let d = ex.on_request_headers(&mut request_headers, &HeaderContext { epoch_millis: Some(1), request_headers: vec![] });
    assert_eq!(d, Directive::Continue);
    assert_eq!(
        request_headers,
        vec![(s("host"), s("h")), (s("X-Custom-Header"), s("processed-by-wasm"))]
    );
    assert_eq!(ex.request_phase(), Phase::Accumulating);
    assert_eq!(ex.response_phase(), Phase::Idle);

    assert!(matches!(ex.on_request_body_chunk(b"{\"password\":", false, &context()), ChunkOutcome::Hold));
    match ex.on_request_body_chunk(b"\"x\",\"u\":1}", true, &context()) {
        ChunkOutcome::Release { body, content_length } => {
            assert_eq!(body, b"{\"u\":1}".to_vec());
            assert_eq!(content_length, "7");
        }
        ChunkOutcome::Hold => panic!("the last chunk releases the body"),
    }
    assert_eq!(ex.request_phase(), Phase::Finalized);

    let mut response_headers = vec![];
    let d = ex.on_response_headers(&mut response_headers, &HeaderContext { epoch_millis: Some(2), request_headers: vec![] });
    assert_eq!(d, Directive::Continue);
    assert_eq!(response_headers, vec![(s("X-Frame-Options"), s("DENY"))]);
    assert_eq!(ex.response_phase(), Phase::Accumulating);
    match ex.on_response_body_chunk(b"{\"ok\":1}", true, &context()) {
        ChunkOutcome::Release { body, content_length } => {
            assert_eq!(body, b"{\"ok\":1,\"success\":true}".to_vec());
            assert_eq!(content_length, "23");
        }
        ChunkOutcome::Hold => panic!("the last chunk releases the body"),
    }
    assert_eq!(ex.response_phase(), Phase::Finalized);
    assert_eq!(ex.request_phase(), Phase::Finalized);
}

#[test]
fn abort_drops_the_buffers() {
    let mut ex = exchange();
    assert!(matches!(ex.on_request_body_chunk(b"{\"a\"", false, &context()), ChunkOutcome::Hold));
    ex.abort();
    assert_eq!(ex.request_phase(), Phase::Accumulating);
    match ex.on_request_body_chunk(b"{}", true, &context()) {
        ChunkOutcome::Release { body, .. } => assert_eq!(body, b"{}".to_vec()),
        ChunkOutcome::Hold => panic!("the last chunk releases the body"),
    }
}

#[test]
fn outcome_tells_the_host_to_pause_or_continue() {
    assert_eq!(ChunkOutcome::Hold.directive(), Directive::Pause);
    let released = ChunkOutcome::Release { body: vec![], content_length: s("0") };
    assert_eq!(released.directive(), Directive::Continue);
}

#[test]
fn a_finalized_direction_takes_no_further_chunk() {
    let engine = JsonRuleEngine::new(vec![JsonRule::RemoveFields { keys: vec![s("b")] }]);
    let mut dir = DirectionState::new();
    assert!(matches!(
        dir.offer_chunk(b"{\"a\":1,\"b\":2}", true, &engine, &context()),
        Some(ChunkOutcome::Release { .. })
    ));
    assert_eq!(dir.current_phase(), Phase::Finalized);
    assert!(dir.offer_chunk(b"more", false, &engine, &context()).is_none());
    assert!(dir.offer_chunk(b"more", true, &engine, &context()).is_none());
    assert_eq!(dir.current_phase(), Phase::Finalized);
}

#[test]
fn exchange_ignores_chunks_after_the_end() {
    let mut ex = exchange();
    assert!(matches!(
        ex.offer_request_body_chunk(b"{\"a\"", false, &context()),
        Some(ChunkOutcome::Hold)
    ));
    match ex.offer_request_body_chunk(b":1}", true, &context()) {
        Some(ChunkOutcome::Release { body, content_length }) => {
            assert_eq!(body, b"{\"a\":1}".to_vec());
            assert_eq!(content_length, "7");
        }
        _ => panic!("the last chunk releases the body"),
    }
    assert!(ex.offer_request_body_chunk(b"x", true, &context()).is_none());
    assert_eq!(ex.request_phase(), Phase::Finalized);
    assert_eq!(ex.response_phase(), Phase::Idle);
    assert!(matches!(
        ex.offer_response_body_chunk(b"[]", true, &context()),
        Some(ChunkOutcome::Release { .. })
    ));
    assert!(ex.offer_response_body_chunk(b"[]", true, &context()).is_none());
}

#[test]
fn response_headers_read_the_request() {
    let mut ex = ExchangeContext::new(
        vec![],
        vec![
            HeaderRule::EchoIf { source: s("origin"), target: s("Access-Control-Allow-Origin") },
            HeaderRule::AddHeaderIf {
                present: s("origin"),
                name: s("Access-Control-Allow-Methods"),
                value: s("GET, POST, PUT, DELETE, OPTIONS"),
            },
        ],
        vec![],
        vec![],
    );
    let ctx = HeaderContext {
        epoch_millis: None,
        request_headers: vec![(s("origin"), s("https://a.example"))],
    };
    let mut response_headers = vec![(s("server"), s("u"))];
    ex.on_response_headers(&mut response_headers, &ctx);
    assert_eq!(
        response_headers,
        vec![
            (s("server"), s("u")),
            (s("Access-Control-Allow-Origin"), s("https://a.example")),
            (s("Access-Control-Allow-Methods"), s("GET, POST, PUT, DELETE, OPTIONS")),
        ]
    );
}
