//! What an invocation produces: responses, stream events, and the outcomes
//! reported to the caller, with the error texts that the isolate uses.
use std::time::Duration;
use vstd::prelude::*;

verus! {

/// Text of the error raised for every module import: a bundle is one file.
pub const IMPORT_DISALLOWED: &'static str = "Can't import modules, everything should be bundled in a single file";

/// Text used when the engine reports a failure without an exception to describe it.
pub const UNKNOWN_ERROR: &'static str = "Unknown error";

/// Text used when the handler returns something other than a promise.
pub const HANDLER_NOT_PROMISE: &'static str = "Handler did not return a promise";

/// Separator between an exception's message and the source line it came from.
pub const SOURCE_LINE_SEPARATOR: &'static str = ", at:\n";

/// The body of a response: complete bytes, or a stream fed chunk by chunk.
#[derive(Debug)]
pub enum Body {
    Bytes(Vec<u8>),
    Stream,
}

/// A response as the handler produced it. `headers` is a multi-map: a name
/// may occur in several pairs.
#[derive(Debug)]
pub struct Response {
    pub status: u16,
    pub headers: Vec<(String, String)>,
    pub body: Body,
}

impl Response {
    pub fn is_streamed(&self) -> (r: bool)
        ensures
            r == self.body is Stream,
    {
        match self.body {
            Body::Stream => true,
            Body::Bytes(_) => false,
        }
    }
}

/// What the script side pushes on the stream channel while a streamed body is produced.
#[derive(Debug)]
pub enum BodyEvent {
    Chunk(Vec<u8>),
    Done,
}

/// One event of the streaming sub-protocol as the caller sees it.
#[derive(Debug)]
pub enum StreamResult {
    Start(Response),
    Chunk(Vec<u8>),
    Done,
}

/// The outcome of an invocation, as sent to the caller.
#[derive(Debug)]
pub enum RunResult {
    Response(Response, Duration),
    Error(String),
    Timeout,
    MemoryLimit,
    Stream(StreamResult),
}

/// A [`RunResult`] as contracts compare it: error texts as characters.
pub enum Outcome {
    Response(Response, Duration),
    Error(Seq<char>),
    Timeout,
    MemoryLimit,
    Stream(StreamResult),
}

impl View for RunResult {
    type V = Outcome;

    open spec fn view(&self) -> Outcome {
        match *self {
            RunResult::Response(r, d) => Outcome::Response(r, d),
            RunResult::Error(m) => Outcome::Error(m@),
            RunResult::Timeout => Outcome::Timeout,
            RunResult::MemoryLimit => Outcome::MemoryLimit,
            RunResult::Stream(e) => Outcome::Stream(e),
        }
    }
}

/// The outcomes that a sequence of results stands for.
pub open spec fn outcomes(rs: Seq<RunResult>) -> Seq<Outcome> {
    rs.map_values(|r: RunResult| r@)
}

/// An outcome that ends an invocation from outside the handler's promise:
/// a guard fired, or the handler call itself failed.
#[derive(Debug)]
pub enum Termination {
    Timeout,
    MemoryLimit,
    Error(String),
}

/// An exception as the engine describes it: its message, and the source
/// line it was raised on where the engine knows it.
#[derive(Debug)]
pub struct ExceptionInfo {
    pub message: String,
    pub source_line: Option<String>,
}

pub open spec fn stream_result_of(e: BodyEvent) -> StreamResult {
    match e {
        BodyEvent::Chunk(bytes) => StreamResult::Chunk(bytes),
        BodyEvent::Done => StreamResult::Done,
    }
}

pub open spec fn termination_outcome(t: Termination) -> Outcome {
    match t {
        Termination::Timeout => Outcome::Timeout,
        Termination::MemoryLimit => Outcome::MemoryLimit,
        Termination::Error(m) => Outcome::Error(m@),
    }
}

/// The text of an error outcome: the given text, or the unknown-error text
/// where it is empty, so that an error never reaches the caller blank.
pub open spec fn error_text_of(m: Seq<char>) -> Seq<char> {
    if m.len() == 0 {
        UNKNOWN_ERROR@
    } else {
        m
    }
}

/// The text reported for an exception: its message, followed by the source
/// line where there is one.
pub open spec fn exception_text_of(message: Seq<char>, source_line: Option<Seq<char>>) -> Seq<char> {
    match source_line {
        Some(line) => message + SOURCE_LINE_SEPARATOR@ + line,
        None => error_text_of(message),
    }
}

pub open spec fn exception_info_text(info: ExceptionInfo) -> Seq<char> {
    exception_text_of(
        info.message@,
        match info.source_line {
            Some(l) => Some(l@),
            None => None,
        },
    )
}

pub fn stream_result_from(e: BodyEvent) -> (r: StreamResult)
    ensures
        r == stream_result_of(e),
{
    match e {
        BodyEvent::Chunk(bytes) => StreamResult::Chunk(bytes),
        BodyEvent::Done => StreamResult::Done,
    }
}

/// The text of an error outcome; see [`error_text_of`].
pub fn error_text(m: String) -> (r: String)
    ensures
        r@ == error_text_of(m@),
        r@.len() > 0,
{
    proof {
        reveal_strlit("Unknown error");
    }
    if m.as_str().unicode_len() == 0 {
        String::from_str(UNKNOWN_ERROR)
    } else {
        m
    }
}

/// The text reported for an exception; see [`exception_text_of`].
pub fn exception_text(info: ExceptionInfo) -> (r: String)
    ensures
        r@ == exception_info_text(info),
        r@.len() > 0,
{
    proof {
        reveal_strlit(", at:\n");
    }
    match info.source_line {
        Some(line) => {
            let mut text = info.message;
            text.append(SOURCE_LINE_SEPARATOR);
            text.append(line.as_str());
            text
        },
        None => error_text(info.message),
    }
}

/// The error raised when a bundle asks for module `specifier`: whatever the
/// module is, and whether it exists or not, the same fixed text.
pub fn import_error(specifier: &str) -> (r: String)
    ensures
        r@ == IMPORT_DISALLOWED@,
{
    String::from_str(IMPORT_DISALLOWED)
}

impl Termination {
    pub fn to_run_result(&self) -> (r: RunResult)
        ensures
            r@ == termination_outcome(*self),
    {
        match self {
            Termination::Timeout => RunResult::Timeout,
            Termination::MemoryLimit => RunResult::MemoryLimit,
            Termination::Error(m) => RunResult::Error(m.clone()),
        }
    }
}

} // verus!
