//! One step of the event-loop driver: after the engine has run what was
//! ready and the host results have been handed to their promises, decide
//! from the buffered stream events, the terminal result and the state of
//! the handler's promise what the caller is sent and whether the
//! invocation is complete.
use std::time::Duration;
use vstd::prelude::*;
use crate::outcome::{
    error_text, error_text_of, exception_info_text, exception_text, outcomes, stream_result_from,
    stream_result_of, termination_outcome, BodyEvent, ExceptionInfo, Outcome, Response, RunResult,
    StreamResult, Termination,
};

verus! {

/// Whether the current invocation streams its body, and whether the
/// stream has ended.
#[derive(Debug, PartialEq, Eq, Structural, Copy, Clone)]
pub enum StreamStatus {
    NoStream,
    HasStream,
    Done,
}

impl StreamStatus {
    pub fn is_done(&self) -> (r: bool)
        ensures
            r == (*self == StreamStatus::Done),
    {
        match self {
            StreamStatus::Done => true,
            _ => false,
        }
    }
}

/// The stream status after one more event: the first event means a
/// stream, and its end means it is done.
pub open spec fn status_step(s: StreamStatus, e: BodyEvent) -> StreamStatus {
    if e is Done {
        StreamStatus::Done
    } else if s == StreamStatus::NoStream {
        StreamStatus::HasStream
    } else {
        s
    }
}

/// The stream status after a sequence of events, taken in order.
pub open spec fn status_after(s: StreamStatus, events: Seq<BodyEvent>) -> StreamStatus
    decreases events.len(),
{
    if events.len() == 0 {
        s
    } else {
        status_step(status_after(s, events.drop_last()), events.last())
    }
}

/// The outcomes that forwarding stream events sends to the caller.
pub open spec fn forwarded(events: Seq<BodyEvent>) -> Seq<Outcome> {
    events.map_values(|e: BodyEvent| Outcome::Stream(stream_result_of(e)))
}

/// The state of the handler's promise as one poll finds it.
#[derive(Debug)]
pub enum PromiseObservation {
    /// The handler has not handed back a promise.
    Absent,
    Pending,
    /// Fulfilled; the value converted to a response, or the reason why it
    /// could not be.
    Fulfilled(Result<Response, String>),
    Rejected(ExceptionInfo),
}

/// The driver's state across the polls of one invocation.
pub struct LoopModel {
    pub status: StreamStatus,
    /// The start of a streamed response has been sent.
    pub sent: bool,
    /// Stream events held back until the start has been sent.
    pub pending: Seq<BodyEvent>,
}

pub open spec fn fresh_loop() -> LoopModel {
    LoopModel { status: StreamStatus::NoStream, sent: false, pending: Seq::empty() }
}

/// One poll: the new state, the outcomes sent in order, and whether the
/// invocation is complete.
///
/// Once the start of a stream has been sent, events are forwarded as they
/// come and the invocation completes with the end of the stream. Before,
/// events are held back; a terminal result is sent first and completes;
/// otherwise a settled promise decides, and a streamed response sends its
/// start followed by the events held back.
pub open spec fn poll_spec(
    m: LoopModel,
    events: Seq<BodyEvent>,
    termination: Option<Termination>,
    promise: PromiseObservation,
    duration: Duration,
) -> (LoopModel, Seq<Outcome>, bool) {
    let status = status_after(m.status, events);
    if m.sent {
        (LoopModel { status, ..m }, forwarded(events), status == StreamStatus::Done)
    } else {
        let pending = m.pending + events;
        let held = LoopModel { status, sent: false, pending };
        match termination {
            Some(t) => (held, seq![termination_outcome(t)], true),
            None => match promise {
                PromiseObservation::Fulfilled(Ok(resp)) => if resp.body is Stream {
                    (
                        LoopModel { status, sent: true, pending: Seq::empty() },
                        seq![Outcome::Stream(StreamResult::Start(resp))] + forwarded(pending),
                        status == StreamStatus::Done,
                    )
                } else {
                    (held, seq![Outcome::Response(resp, duration)], true)
                },
                PromiseObservation::Fulfilled(Err(reason)) => (
                    held,
                    seq![Outcome::Error(error_text_of(reason@))],
                    true,
                ),
                PromiseObservation::Rejected(info) => (
                    held,
                    seq![Outcome::Error(exception_info_text(info))],
                    true,
                ),
                _ => (held, Seq::empty(), false),
            },
        }
    }
}

/// What one poll is handed: the stream events buffered since the last
/// poll, the terminal result, the state of the handler's promise, and the
/// time taken so far.
pub struct PollInput {
    pub events: Seq<BodyEvent>,
    pub termination: Option<Termination>,
    pub promise: PromiseObservation,
    pub duration: Duration,
}

/// The outcomes that a sequence of polls sends, up to the one that
/// completes the invocation, and whether one did.
pub open spec fn drive(m: LoopModel, inputs: Seq<PollInput>) -> (Seq<Outcome>, bool)
    decreases inputs.len(),
{
    if inputs.len() == 0 {
        (Seq::empty(), false)
    } else {
        let i = inputs[0];
        let (next, out, done) = poll_spec(m, i.events, i.termination, i.promise, i.duration);
        if done {
            (out, true)
        } else {
            let (rest, completed) = drive(next, inputs.drop_first());
            (out + rest, completed)
        }
    }
}

/// All the stream events handed to a sequence of polls, in order.
pub open spec fn all_events(inputs: Seq<PollInput>) -> Seq<BodyEvent>
    decreases inputs.len(),
{
    if inputs.len() == 0 {
        Seq::empty()
    } else {
        inputs[0].events + all_events(inputs.drop_first())
    }
}

/// Zero or more chunks, then the end of the stream.
pub open spec fn chunks_then_done(s: Seq<BodyEvent>) -> bool {
    &&& s.len() > 0
    &&& s.last() is Done
    &&& forall|i: int| 0 <= i < s.len() - 1 ==> #[trigger] s[i] is Chunk
}

/// The driver of one invocation.
pub struct LoopState {
    stream_status: StreamStatus,
    stream_response_sent: bool,
    pending: Vec<BodyEvent>,
}

impl View for LoopState {
    type V = LoopModel;

    closed spec fn view(&self) -> LoopModel {
        LoopModel {
            status: self.stream_status,
            sent: self.stream_response_sent,
            pending: self.pending@,
        }
    }
}

/// Appends the forwarding of `events` to `out`.
fn forward_into(out: &mut Vec<RunResult>, events: Vec<BodyEvent>)
    ensures
        outcomes(final(out)@) == outcomes(old(out)@) + forwarded(events@),
{
    let mut rest = events;
    while rest.len() > 0
        invariant
            outcomes(out@) + forwarded(rest@) == outcomes(old(out)@) + forwarded(events@),
        decreases rest.len(),
    {
        let ghost before_out = out@;
        let ghost before_rest = rest@;
        let e = rest.remove(0);
        out.push(RunResult::Stream(stream_result_from(e)));
        proof {
            assert(before_rest == seq![e] + rest@);
            assert(forwarded(before_rest) =~= seq![Outcome::Stream(stream_result_of(e))] + forwarded(rest@));
            assert(outcomes(out@) =~= outcomes(before_out) + seq![Outcome::Stream(stream_result_of(e))]);
        }
    }
    proof {
        assert(forwarded(rest@) =~= Seq::<Outcome>::empty());
        assert(outcomes(out@) + forwarded(rest@) =~= outcomes(out@));
    }
}

impl LoopState {
    pub fn new() -> (r: Self)
        ensures
            r@ == fresh_loop(),
    {
        LoopState { stream_status: StreamStatus::NoStream, stream_response_sent: false, pending: Vec::new() }
    }

    pub fn stream_status(&self) -> (r: StreamStatus)
        ensures
            r == self@.status,
    {
        self.stream_status
    }

    /// Updates the stream status with each of `events`, in order.
    fn absorb(&mut self, events: &Vec<BodyEvent>)
        ensures
            final(self)@ == (LoopModel { status: status_after(old(self)@.status, events@), ..old(self)@ }),
    {
        let mut i: usize = 0;
        while i < events.len()
            invariant
                i <= events@.len(),
                self@ == (LoopModel { status: status_after(old(self)@.status, events@.take(i as int)), ..old(self)@ }),
            decreases events@.len() - i,
        {
            proof {
                assert(events@.take(i as int + 1).drop_last() =~= events@.take(i as int));
            }
            if let StreamStatus::NoStream = self.stream_status {
                self.stream_status = StreamStatus::HasStream;
            }
            if let BodyEvent::Done = events[i] {
                self.stream_status = StreamStatus::Done;
            }
            i = i + 1;
        }
        proof {
            assert(events@.take(i as int) =~= events@);
        }
    }

    /// One poll of the invocation; see [`poll_spec`]. `events` are the
    /// stream events buffered since the last poll, in order; `duration` is
    /// the time the invocation has taken, reported with a response.
    pub fn poll(
        &mut self,
        events: Vec<BodyEvent>,
        termination: &Option<Termination>,
        promise: PromiseObservation,
        duration: Duration,
    ) -> (r: (Vec<RunResult>, bool))
        ensures
            ({
                let (m, out, done) = poll_spec(old(self)@, events@, *termination, promise, duration);
                &&& final(self)@ == m
                &&& outcomes(r.0@) == out
                &&& r.1 == done
            }),
    {
        self.absorb(&events);
        let mut out: Vec<RunResult> = Vec::new();
        if self.stream_response_sent {
            forward_into(&mut out, events);
            proof {
                assert(outcomes(Seq::<RunResult>::empty()) =~= Seq::<Outcome>::empty());
                assert(outcomes(out@) =~= forwarded(events@));
            }
            let done = self.stream_status.is_done();
            return (out, done);
        }
        let mut incoming = events;
        self.pending.append(&mut incoming);
        match termination {
            Some(t) => {
                out.push(t.to_run_result());
                proof {
                    assert(outcomes(out@) =~= seq![termination_outcome(*t)]);
                }
                return (out, true);
            },
            None => {},
        }
        match promise {
            PromiseObservation::Fulfilled(Ok(resp)) => {
                if resp.is_streamed() {
                    let ghost held = self.pending@;
                    out.push(RunResult::Stream(StreamResult::Start(resp)));
                    let ghost start = outcomes(out@);
                    let mut pending: Vec<BodyEvent> = Vec::new();
                    std::mem::swap(&mut pending, &mut self.pending);
                    forward_into(&mut out, pending);
                    self.stream_response_sent = true;
                    proof {
                        assert(start =~= seq![Outcome::Stream(StreamResult::Start(resp))]);
                    }
                    let done = self.stream_status.is_done();
                    (out, done)
                } else {
                    out.push(RunResult::Response(resp, duration));
                    proof {
                        assert(outcomes(out@) =~= seq![Outcome::Response(resp, duration)]);
                    }
                    (out, true)
                }
            },
            PromiseObservation::Fulfilled(Err(reason)) => {
                out.push(RunResult::Error(error_text(reason)));
                proof {
                    assert(outcomes(out@) =~= seq![Outcome::Error(error_text_of(reason@))]);
                }
                (out, true)
            },
            PromiseObservation::Rejected(info) => {
                out.push(RunResult::Error(exception_text(info)));
                proof {
                    assert(outcomes(out@) =~= seq![Outcome::Error(exception_info_text(info))]);
                }
                (out, true)
            },
            _ => {
                proof {
                    assert(outcomes(out@) =~= Seq::<Outcome>::empty());
                }
                (out, false)
            },
        }
    }
}

} // verus!
