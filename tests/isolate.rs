use std::collections::HashMap;
use std::time::Duration;

use lagon_isolate::compile::Compilation;
use lagon_isolate::context::{call_termination, ContextState, HandlerCall};
use lagon_isolate::event_loop::{LoopState, PromiseObservation, StreamStatus};
use lagon_isolate::guard::{call_returned, raised_heap_limit, watch, ExecutionResult, WatcherAction};
use lagon_isolate::options::{IsolateOptions, IsolateStatistics};
use lagon_isolate::outcome::{
    error_text, exception_text, import_error, Body, BodyEvent, ExceptionInfo, Response, RunResult,
    StreamResult, Termination,
};
use lagon_isolate::promises::PromiseTable;

type Options = IsolateOptions<fn(Option<String>), fn(Option<String>, IsolateStatistics)>;

fn ok_response(text: &str) -> Response {
    Response {
        status: 200,
        headers: vec![("content-type".to_string(), "text/plain".to_string())],
        body: Body::Bytes(text.as_bytes().to_vec()),
    }
}

fn streamed_response() -> Response {
    Response { status: 200, headers: Vec::new(), body: Body::Stream }
}

fn no_events() -> Vec<BodyEvent> {
    Vec::new()
}

fn body_of(r: &RunResult) -> Vec<u8> {
    match r {
        RunResult::Response(Response { body: Body::Bytes(b), .. }, _) => b.clone(),
        other => panic!("not a response with bytes: {:?}", other),
    }
}

fn error_of(r: &RunResult) -> String {
    match r {
        RunResult::Error(m) => m.clone(),
        other => panic!("not an error: {:?}", other),
    }
}

#[test]
fn options_defaults() {
    let o: Options = IsolateOptions::new("export function handler() {}".to_string());
    assert_eq!(o.code, "export function handler() {}");
    assert_eq!(o.timeout, 50);
    assert_eq!(o.memory, 128);
    assert!(o.environment_variables.is_none());
    assert!(o.id.is_none());
    assert!(o.on_drop.is_none());
    assert!(o.on_statistics.is_none());
}

#[test]
fn options_builders() {
    fn on_drop(_: Option<String>) {}
    fn on_stats(_: Option<String>, _: IsolateStatistics) {}
    let mut env = HashMap::new();
    env.insert("KEY".to_string(), "value".to_string());
    let o: Options = IsolateOptions::new("code".to_string())
        .with_environment_variables(env)
        .with_timeout(10)
        .with_memory(10)
        .with_id("fn-1".to_string())
        .with_on_drop_callback(on_drop as fn(Option<String>))
        .with_on_statistics_callback(on_stats as fn(Option<String>, IsolateStatistics));
    assert_eq!(o.timeout, 10);
    assert_eq!(o.memory, 10);
    assert_eq!(o.id.as_deref(), Some("fn-1"));
    assert_eq!(o.environment_variables.unwrap().get("KEY").map(|s| s.as_str()), Some("value"));
    assert!(o.on_drop.is_some());
    assert!(o.on_statistics.is_some());
    assert_eq!(o.code, "code");
}

#[test]
fn heap_limit_in_bytes() {
    let o: Options = IsolateOptions::new(String::new());
    assert_eq!(o.heap_limit_bytes(), Some(128 * 1024 * 1024));
    let o: Options = IsolateOptions::new(String::new()).with_memory(10);
    assert_eq!(o.heap_limit_bytes(), Some(10 * 1024 * 1024));
    let o: Options = IsolateOptions::new(String::new()).with_memory(usize::MAX);
    assert_eq!(o.heap_limit_bytes(), None);
}

#[test]
fn raised_heap_limit_doubles_and_saturates() {
    assert_eq!(raised_heap_limit(10 * 1024 * 1024), 20 * 1024 * 1024);
    assert_eq!(raised_heap_limit(0), 0);
    assert_eq!(raised_heap_limit(usize::MAX), usize::MAX);
    assert_eq!(raised_heap_limit(usize::MAX / 2), usize::MAX - 1);
}

#[test]
fn stream_status_is_done() {
    assert!(StreamStatus::Done.is_done());
    assert!(!StreamStatus::HasStream.is_done());
    assert!(!StreamStatus::NoStream.is_done());
}

#[test]
fn watcher_before_and_after_deadline() {
    let mut flag = ExecutionResult::WillRun;
    assert_eq!(watch(&mut flag, 3, 10), WatcherAction::Wait);
    assert_eq!(flag, ExecutionResult::WillRun);
    assert_eq!(watch(&mut flag, 10, 10), WatcherAction::Terminate);
    assert_eq!(flag, ExecutionResult::TimeoutReached);

    let mut flag = ExecutionResult::Run;
    assert_eq!(watch(&mut flag, 1000, 10), WatcherAction::Stop);
    assert_eq!(flag, ExecutionResult::Run);
}

#[test]
fn call_returned_keeps_a_passed_deadline() {
    let mut flag = ExecutionResult::WillRun;
    assert!(!call_returned(&mut flag));
    assert_eq!(flag, ExecutionResult::Run);
    let mut flag = ExecutionResult::TimeoutReached;
    assert!(call_returned(&mut flag));
    assert_eq!(flag, ExecutionResult::TimeoutReached);
}

#[test]
fn exception_text_with_and_without_line() {
    let info = ExceptionInfo {
        message: "Uncaught Error: boom".to_string(),
        source_line: Some("throw new Error('boom')".to_string()),
    };
    assert_eq!(exception_text(info), "Uncaught Error: boom, at:\nthrow new Error('boom')");
    let info = ExceptionInfo { message: "Uncaught Error: boom".to_string(), source_line: None };
    assert_eq!(exception_text(info), "Uncaught Error: boom");
    let info = ExceptionInfo { message: String::new(), source_line: None };
    assert_eq!(exception_text(info), "Unknown error");
}

#[test]
fn error_text_never_blank() {
    assert_eq!(error_text(String::new()), "Unknown error");
    assert_eq!(error_text("bad".to_string()), "bad");
}

#[test]
fn import_error_is_fixed() {
    let expected = "Can't import modules, everything should be bundled in a single file";
    assert_eq!(import_error("./missing.js"), expected);
    assert_eq!(import_error("node:fs"), expected);
    assert_eq!(import_error(""), expected);
}

#[test]
fn call_termination_variants() {
    let (t, h) = call_termination(HandlerCall::Promise(7u32), false);
    assert!(t.is_none());
    assert_eq!(h, Some(7));

    let (t, h) = call_termination(HandlerCall::Promise(7u32), true);
    assert!(matches!(t, Some(Termination::Timeout)));
    assert!(h.is_none());

    let (t, _) = call_termination(HandlerCall::<u32>::NotPromise, false);
    assert!(matches!(t, Some(Termination::Error(ref m)) if m == "Handler did not return a promise"));

    let (t, _) = call_termination(HandlerCall::<u32>::Threw(None), false);
    assert!(matches!(t, Some(Termination::Error(ref m)) if m == "Unknown error"));

    let info = ExceptionInfo { message: "Uncaught TypeError: x".to_string(), source_line: None };
    let (t, _) = call_termination(HandlerCall::<u32>::Threw(Some(info)), false);
    assert!(matches!(t, Some(Termination::Error(ref m)) if m == "Uncaught TypeError: x"));
}

#[test]
fn termination_to_run_result() {
    assert!(matches!(Termination::Timeout.to_run_result(), RunResult::Timeout));
    assert!(matches!(Termination::MemoryLimit.to_run_result(), RunResult::MemoryLimit));
    assert_eq!(error_of(&Termination::Error("x".to_string()).to_run_result()), "x");
}

// A handler returning `new Response("ok")` within 50 ms.
#[test]
fn scenario_ok_response() {
    let mut state: ContextState<u32, u32> = ContextState::new();
    let mut flag = ExecutionResult::WillRun;
    state.settle_handler_call(&mut flag, HandlerCall::Promise(1));
    assert_eq!(flag, ExecutionResult::Run);
    assert_eq!(state.handler_result, Some(1));

    let mut driver = LoopState::new();
    let (out, done) = driver.poll(no_events(), &state.termination_result, PromiseObservation::Pending, Duration::from_millis(1));
    assert!(out.is_empty());
    assert!(!done);
    let (out, done) = driver.poll(
        no_events(),
        &state.termination_result,
        PromiseObservation::Fulfilled(Ok(ok_response("ok"))),
        Duration::from_millis(2),
    );
    assert!(done);
    assert_eq!(out.len(), 1);
    assert_eq!(body_of(&out[0]), b"ok".to_vec());
    assert!(matches!(&out[0], RunResult::Response(r, d) if r.status == 200 && *d == Duration::from_millis(2)));
}

// A busy loop with a 10 ms timeout: the watcher fires, the call comes back
// without a value, and the outcome is the timeout.
#[test]
fn scenario_busy_loop_times_out() {
    let mut flag = ExecutionResult::WillRun;
    assert_eq!(watch(&mut flag, 5, 10), WatcherAction::Wait);
    assert_eq!(watch(&mut flag, 11, 10), WatcherAction::Terminate);

    let mut state: ContextState<u32, u32> = ContextState::new();
    state.settle_handler_call(&mut flag, HandlerCall::Threw(None));
    assert!(matches!(state.termination_result, Some(Termination::Timeout)));

    let mut driver = LoopState::new();
    let (out, done) = driver.poll(
        no_events(),
        &state.termination_result,
        PromiseObservation::Absent,
        Duration::from_millis(11),
    );
    assert!(done);
    assert_eq!(out.len(), 1);
    assert!(matches!(out[0], RunResult::Timeout));
}

// The deadline passed but the handler still handed back a promise that
// then resolves: the outcome is the timeout, not the late response.
#[test]
fn timeout_beats_late_response() {
    let mut flag = ExecutionResult::TimeoutReached;
    let mut state: ContextState<u32, u32> = ContextState::new();
    state.settle_handler_call(&mut flag, HandlerCall::Promise(3));
    assert!(state.handler_result.is_none());
    assert!(matches!(state.termination_result, Some(Termination::Timeout)));

    let mut driver = LoopState::new();
    let (out, done) = driver.poll(
        no_events(),
        &state.termination_result,
        PromiseObservation::Fulfilled(Ok(ok_response("late"))),
        Duration::from_millis(60),
    );
    assert!(done);
    assert_eq!(out.len(), 1);
    assert!(matches!(out[0], RunResult::Timeout));
}

// An array grown without bound under a 10 MB ceiling.
#[test]
fn scenario_memory_limit() {
    let o: Options = IsolateOptions::new(String::new()).with_memory(10);
    let limit = o.heap_limit_bytes().unwrap();
    let mut state: ContextState<u32, u32> = ContextState::new();
    let mut flag = ExecutionResult::WillRun;
    assert_eq!(state.heap_limit_reached(limit), 20 * 1024 * 1024);
    assert!(matches!(state.termination_result, Some(Termination::MemoryLimit)));

    // The call was stopped: the memory limit stays the outcome.
    state.settle_handler_call(&mut flag, HandlerCall::Threw(None));
    assert!(matches!(state.termination_result, Some(Termination::MemoryLimit)));

    let mut driver = LoopState::new();
    let (out, done) = driver.poll(
        no_events(),
        &state.termination_result,
        PromiseObservation::Fulfilled(Ok(ok_response("ok"))),
        Duration::from_millis(5),
    );
    assert!(done);
    assert_eq!(out.len(), 1);
    assert!(matches!(out[0], RunResult::MemoryLimit));
}

#[test]
fn memory_limit_overrides_timeout() {
    let mut state: ContextState<u32, u32> = ContextState::new();
    let mut flag = ExecutionResult::TimeoutReached;
    state.settle_handler_call(&mut flag, HandlerCall::Threw(None));
    assert!(matches!(state.termination_result, Some(Termination::Timeout)));
    state.heap_limit_reached(1024);
    assert!(matches!(state.termination_result, Some(Termination::MemoryLimit)));
}

// `hostFetch(url).then(r => r)`: the host result is handed to the promise
// registered for it, once, and the handler's promise then yields the
// fetched content.
#[test]
fn scenario_host_fetch_bridge() {
    let mut state: ContextState<&'static str, u32> = ContextState::new();
    let mut flag = ExecutionResult::WillRun;
    let id = state.promises.register("fetch-resolver").unwrap();
    assert_eq!(id, 0);
    state.settle_handler_call(&mut flag, HandlerCall::Promise(9));

    let mut driver = LoopState::new();
    let (out, done) = driver.poll(no_events(), &state.termination_result, PromiseObservation::Pending, Duration::from_millis(1));
    assert!(out.is_empty() && !done);

    assert!(state.promises.contains(id));
    assert_eq!(state.promises.resolve(id), "fetch-resolver");
    assert!(!state.promises.contains(id));
    assert_eq!(state.promises.len(), 0);

    let (out, done) = driver.poll(
        no_events(),
        &state.termination_result,
        PromiseObservation::Fulfilled(Ok(ok_response("fetched content"))),
        Duration::from_millis(4),
    );
    assert!(done);
    assert_eq!(out.len(), 1);
    assert_eq!(body_of(&out[0]), b"fetched content".to_vec());
}

#[test]
fn promise_ids_are_fresh() {
    let mut table: PromiseTable<u8> = PromiseTable::new();
    let a = table.register(1).unwrap();
    let b = table.register(2).unwrap();
    assert_eq!((a, b), (0, 1));
    assert_eq!(table.resolve(a), 1);
    let c = table.register(3).unwrap();
    assert_eq!(c, 2);
    assert_eq!(table.len(), 2);
    assert_eq!(table.resolve(c), 3);
    assert_eq!(table.resolve(b), 2);
    assert_eq!(table.len(), 0);
}

#[test]
fn rejected_promise_reports_error() {
    let mut driver = LoopState::new();
    let info = ExceptionInfo { message: "Uncaught boom".to_string(), source_line: Some("reject('boom')".to_string()) };
    let (out, done) = driver.poll(no_events(), &None, PromiseObservation::Rejected(info), Duration::from_millis(1));
    assert!(done);
    assert_eq!(out.len(), 1);
    assert_eq!(error_of(&out[0]), "Uncaught boom, at:\nreject('boom')");
}

#[test]
fn unconvertible_value_reports_error() {
    let mut driver = LoopState::new();
    let (out, done) = driver.poll(no_events(), &None, PromiseObservation::Fulfilled(Err(String::new())), Duration::from_millis(1));
    assert!(done);
    assert_eq!(error_of(&out[0]), "Unknown error");
}

#[test]
fn non_promise_handler_reports_error() {
    let mut state: ContextState<u32, u32> = ContextState::new();
    let mut flag = ExecutionResult::WillRun;
    state.settle_handler_call(&mut flag, HandlerCall::NotPromise);
    assert_eq!(flag, ExecutionResult::Run);
    let mut driver = LoopState::new();
    let (out, done) = driver.poll(no_events(), &state.termination_result, PromiseObservation::Absent, Duration::from_millis(1));
    assert!(done);
    assert_eq!(out.len(), 1);
    assert_eq!(error_of(&out[0]), "Handler did not return a promise");
}

#[test]
fn thrown_handler_reports_error() {
    let mut state: ContextState<u32, u32> = ContextState::new();
    let mut flag = ExecutionResult::WillRun;
    let info = ExceptionInfo { message: "Uncaught Error: sync".to_string(), source_line: None };
    state.settle_handler_call(&mut flag, HandlerCall::Threw(Some(info)));
    let mut driver = LoopState::new();
    let (out, done) = driver.poll(no_events(), &state.termination_result, PromiseObservation::Absent, Duration::from_millis(1));
    assert!(done);
    assert_eq!(error_of(&out[0]), "Uncaught Error: sync");
}

#[test]
fn pending_promise_is_not_complete() {
    let mut driver = LoopState::new();
    for _ in 0..3 {
        let (out, done) = driver.poll(no_events(), &None, PromiseObservation::Pending, Duration::from_millis(1));
        assert!(out.is_empty());
        assert!(!done);
    }
}

fn describe(out: &[RunResult]) -> Vec<String> {
    out.iter()
        .map(|r| match r {
            RunResult::Stream(StreamResult::Start(_)) => "start".to_string(),
            RunResult::Stream(StreamResult::Chunk(b)) => format!("chunk:{}", String::from_utf8_lossy(b)),
            RunResult::Stream(StreamResult::Done) => "done".to_string(),
            other => format!("{:?}", other),
        })
        .collect()
}

#[test]
fn stream_events_after_start() {
    let mut driver = LoopState::new();
    let (out, done) = driver.poll(no_events(), &None, PromiseObservation::Fulfilled(Ok(streamed_response())), Duration::from_millis(1));
    assert_eq!(describe(&out), vec!["start"]);
    assert!(!done);
    assert_eq!(driver.stream_status(), StreamStatus::NoStream);

    let (out, done) = driver.poll(vec![BodyEvent::Chunk(b"a".to_vec())], &None, PromiseObservation::Fulfilled(Ok(streamed_response())), Duration::from_millis(2));
    assert_eq!(describe(&out), vec!["chunk:a"]);
    assert!(!done);
    assert_eq!(driver.stream_status(), StreamStatus::HasStream);

    let (out, done) = driver.poll(
        vec![BodyEvent::Chunk(b"b".to_vec()), BodyEvent::Done],
        &None,
        PromiseObservation::Fulfilled(Ok(streamed_response())),
        Duration::from_millis(3),
    );
    assert_eq!(describe(&out), vec!["chunk:b", "done"]);
    assert!(done);
    assert_eq!(driver.stream_status(), StreamStatus::Done);
}

#[test]
fn stream_events_before_start_are_held() {
    let mut driver = LoopState::new();
    let (out, done) = driver.poll(vec![BodyEvent::Chunk(b"x".to_vec())], &None, PromiseObservation::Pending, Duration::from_millis(1));
    assert!(out.is_empty());
    assert!(!done);
    let (out, done) = driver.poll(vec![BodyEvent::Chunk(b"y".to_vec()), BodyEvent::Done], &None, PromiseObservation::Pending, Duration::from_millis(1));
    assert!(out.is_empty());
    assert!(!done);
    let (out, done) = driver.poll(no_events(), &None, PromiseObservation::Fulfilled(Ok(streamed_response())), Duration::from_millis(2));
    assert_eq!(describe(&out), vec!["start", "chunk:x", "chunk:y", "done"]);
    assert!(done);
}

#[test]
fn empty_stream_is_start_then_done() {
    let mut driver = LoopState::new();
    let (out, done) = driver.poll(vec![BodyEvent::Done], &None, PromiseObservation::Fulfilled(Ok(streamed_response())), Duration::from_millis(1));
    assert_eq!(describe(&out), vec!["start", "done"]);
    assert!(done);
}

#[test]
fn start_is_sent_once() {
    let mut driver = LoopState::new();
    let (out, _) = driver.poll(no_events(), &None, PromiseObservation::Fulfilled(Ok(streamed_response())), Duration::from_millis(1));
    assert_eq!(out.len(), 1);
    let (out, done) = driver.poll(no_events(), &None, PromiseObservation::Fulfilled(Ok(streamed_response())), Duration::from_millis(1));
    assert!(out.is_empty());
    assert!(!done);
}

#[test]
fn compiled_once_and_reused() {
    let mut c: Compilation<u32> = Compilation::new();
    assert!(c.needs_compile());
    assert!(c.failure().is_none());
    c.record(Ok(42));
    assert!(!c.needs_compile());
    assert_eq!(c.handler(), Some(&42));
    // A second invocation finds the handler and compiles nothing.
    assert!(!c.needs_compile());
    assert!(c.failure().is_none());
}

#[test]
fn compilation_error_is_sticky() {
    let mut c: Compilation<u32> = Compilation::new();
    c.record(Err("SyntaxError: Unexpected token".to_string()));
    assert!(!c.needs_compile());
    assert!(c.handler().is_none());
    assert_eq!(error_of(&c.failure().unwrap()), "SyntaxError: Unexpected token");
    assert_eq!(error_of(&c.failure().unwrap()), "SyntaxError: Unexpected token");

    let mut c: Compilation<u32> = Compilation::new();
    c.record(Err(String::new()));
    assert_eq!(error_of(&c.failure().unwrap()), "Unknown error");
}

#[test]
fn response_is_streamed() {
    assert!(streamed_response().is_streamed());
    assert!(!ok_response("x").is_streamed());
}
