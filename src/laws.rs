//! What holds of every invocation, over the models of the driver, the
//! guards and the compile cache.
use vstd::prelude::*;
use crate::context::{settles_as, HandlerCall};
use crate::event_loop::{
    all_events, chunks_then_done, drive, forwarded, fresh_loop, poll_spec, status_after,
    LoopModel, PollInput, PromiseObservation, StreamStatus,
};
use crate::outcome::{
    error_text_of, exception_text_of, termination_outcome, BodyEvent, Outcome, Response,
    StreamResult, Termination, SOURCE_LINE_SEPARATOR,
};

verus! {

/// A poll that finds nothing: no stream event, no terminal result, and
/// no settled promise.
pub open spec fn idle(i: PollInput) -> bool {
    &&& i.events.len() == 0
    &&& i.termination is None
    &&& (i.promise is Pending || i.promise is Absent)
}

proof fn lemma_idle_prefix(inputs: Seq<PollInput>)
    requires
        inputs.len() > 0,
        forall|i: int| 0 <= i < inputs.len() - 1 ==> idle(#[trigger] inputs[i]),
        ({
            let l = inputs.last();
            poll_spec(fresh_loop(), l.events, l.termination, l.promise, l.duration).2
        }),
    ensures
        ({
            let l = inputs.last();
            drive(fresh_loop(), inputs) == (
                poll_spec(fresh_loop(), l.events, l.termination, l.promise, l.duration).1,
                true,
            )
        }),
    decreases inputs.len(),
{
    if inputs.len() > 1 {
        let i = inputs[0];
        assert(idle(i));
        let (next, out, done) = poll_spec(fresh_loop(), i.events, i.termination, i.promise, i.duration);
        assert(next.pending =~= Seq::<BodyEvent>::empty());
        assert(next == fresh_loop());
        let rest = inputs.drop_first();
        assert forall|j: int| 0 <= j < rest.len() - 1 implies idle(#[trigger] rest[j]) by {
            assert(rest[j] == inputs[j + 1]);
        }
        assert(rest.last() == inputs.last());
        lemma_idle_prefix(rest);
        assert(out + drive(next, rest).0 =~= drive(next, rest).0);
    }
}

/// The text of an exception is never empty.
pub proof fn lemma_exception_text_nonempty(message: Seq<char>, source_line: Option<Seq<char>>)
    ensures
        exception_text_of(message, source_line).len() > 0,
        error_text_of(message).len() > 0,
{
    reveal_strlit("Unknown error");
    reveal_strlit(", at:\n");
    assert(SOURCE_LINE_SEPARATOR@.len() > 0);
}

/// A handler whose promise settles with a response that is not streamed,
/// with no guard firing and no stream event, gets that response, exactly
/// once, and the invocation completes with it.
pub proof fn lemma_plain_response_once(inputs: Seq<PollInput>, resp: Response)
    requires
        inputs.len() > 0,
        forall|i: int| 0 <= i < inputs.len() - 1 ==> idle(#[trigger] inputs[i]),
        inputs.last().events.len() == 0,
        inputs.last().termination is None,
        inputs.last().promise == PromiseObservation::Fulfilled(Ok(resp)),
        !(resp.body is Stream),
    ensures
        drive(fresh_loop(), inputs) == (seq![Outcome::Response(resp, inputs.last().duration)], true),
{
    lemma_idle_prefix(inputs);
}

/// A handler whose promise is rejected, or settles with a value that is
/// not a response, gets exactly one error with a non-empty text, and the
/// invocation completes with it.
pub proof fn lemma_settled_failure_once(inputs: Seq<PollInput>)
    requires
        inputs.len() > 0,
        forall|i: int| 0 <= i < inputs.len() - 1 ==> idle(#[trigger] inputs[i]),
        inputs.last().events.len() == 0,
        inputs.last().termination is None,
        inputs.last().promise is Rejected || inputs.last().promise matches PromiseObservation::Fulfilled(Err(_)),
    ensures
        drive(fresh_loop(), inputs).1,
        drive(fresh_loop(), inputs).0.len() == 1,
        drive(fresh_loop(), inputs).0[0] matches Outcome::Error(m) && m.len() > 0,
{
    lemma_idle_prefix(inputs);
    match inputs.last().promise {
        PromiseObservation::Rejected(info) => {
            lemma_exception_text_nonempty(
                info.message@,
                match info.source_line {
                    Some(l) => Some(l@),
                    None => None,
                },
            );
        },
        PromiseObservation::Fulfilled(Err(reason)) => {
            lemma_exception_text_nonempty(reason@, None);
        },
        _ => {},
    }
}

/// A terminal result set before the start of a stream was sent is the one
/// outcome of the invocation, whatever the handler's promise does.
pub proof fn lemma_terminal_result_wins(m: LoopModel, inputs: Seq<PollInput>, t: Termination)
    requires
        !m.sent,
        inputs.len() > 0,
        inputs[0].termination == Some(t),
    ensures
        drive(m, inputs) == (seq![termination_outcome(t)], true),
{
}

/// A handler call that throws, or returns something other than a
/// promise, within the deadline gets exactly one error with a non-empty
/// text, and the invocation completes with it.
pub proof fn lemma_failed_call_once<H>(call: HandlerCall<H>, t: Option<Termination>, inputs: Seq<PollInput>)
    requires
        !(call is Promise),
        settles_as(call, false, t),
        inputs.len() > 0,
        inputs[0].termination == t,
    ensures
        drive(fresh_loop(), inputs).1,
        drive(fresh_loop(), inputs).0.len() == 1,
        drive(fresh_loop(), inputs).0[0] matches Outcome::Error(m) && m.len() > 0,
{
    reveal_strlit("Handler did not return a promise");
    reveal_strlit("Unknown error");
    match call {
        HandlerCall::Threw(Some(info)) => {
            lemma_exception_text_nonempty(
                info.message@,
                match info.source_line {
                    Some(l) => Some(l@),
                    None => None,
                },
            );
        },
        _ => {},
    }
    lemma_terminal_result_wins(fresh_loop(), inputs, t->0);
}

/// Where the deadline passes before the handler call comes back, the
/// invocation's one outcome is the timeout, even where the handler's
/// promise is fulfilled with a response afterwards.
pub proof fn lemma_timeout_wins<H>(call: HandlerCall<H>, t: Option<Termination>, inputs: Seq<PollInput>)
    requires
        settles_as(call, true, t),
        inputs.len() > 0,
        inputs[0].termination == t,
    ensures
        drive(fresh_loop(), inputs) == (seq![Outcome::Timeout], true),
{
    lemma_terminal_result_wins(fresh_loop(), inputs, t->0);
}

/// Where the heap ceiling was reached, the invocation's one outcome is the
/// memory limit, even where the handler's promise is fulfilled with a
/// response in the same poll.
pub proof fn lemma_memory_limit_wins(m: LoopModel, inputs: Seq<PollInput>)
    requires
        !m.sent,
        inputs.len() > 0,
        inputs[0].termination == Some(Termination::MemoryLimit),
    ensures
        drive(m, inputs) == (seq![Outcome::MemoryLimit], true),
{
    lemma_terminal_result_wins(m, inputs, Termination::MemoryLimit);
}

proof fn lemma_status_concat(s: StreamStatus, a: Seq<BodyEvent>, b: Seq<BodyEvent>)
    ensures
        status_after(s, a + b) == status_after(status_after(s, a), b),
    decreases b.len(),
{
    if b.len() == 0 {
        assert(a + b =~= a);
    } else {
        assert((a + b).drop_last() =~= a + b.drop_last());
        assert((a + b).last() == b.last());
        lemma_status_concat(s, a, b.drop_last());
    }
}

proof fn lemma_status_chunks(s: StreamStatus, a: Seq<BodyEvent>)
    requires
        s != StreamStatus::Done,
        forall|i: int| 0 <= i < a.len() ==> #[trigger] a[i] is Chunk,
    ensures
        status_after(s, a) != StreamStatus::Done,
    decreases a.len(),
{
    if a.len() > 0 {
        lemma_status_chunks(s, a.drop_last());
        assert(a.last() is Chunk);
    }
}

/// Splits chunks-then-done `a + b`: with `b` empty, `a` ends the stream;
/// otherwise `a` holds chunks only and `b` is chunks then done.
proof fn lemma_split_stream(a: Seq<BodyEvent>, b: Seq<BodyEvent>)
    requires
        chunks_then_done(a + b),
    ensures
        b.len() == 0 ==> chunks_then_done(a) && a == a + b,
        b.len() > 0 ==> chunks_then_done(b) && forall|i: int| 0 <= i < a.len() ==> #[trigger] a[i] is Chunk,
{
    let s = a + b;
    if b.len() == 0 {
        assert(a =~= s);
    } else {
        assert(b.last() == s.last());
        assert forall|i: int| 0 <= i < b.len() - 1 implies #[trigger] b[i] is Chunk by {
            assert(b[i] == s[a.len() + i]);
        }
        assert forall|i: int| 0 <= i < a.len() implies #[trigger] a[i] is Chunk by {
            assert(a[i] == s[i]);
        }
    }
}

proof fn lemma_streaming_tail(m: LoopModel, inputs: Seq<PollInput>)
    requires
        m.sent,
        m.status != StreamStatus::Done,
        chunks_then_done(all_events(inputs)),
    ensures
        drive(m, inputs) == (forwarded(all_events(inputs)), true),
    decreases inputs.len(),
{
    if inputs.len() == 0 {
        assert(false);
    }
    let i = inputs[0];
    let rest = inputs.drop_first();
    let ev0 = i.events;
    lemma_split_stream(ev0, all_events(rest));
    let status = status_after(m.status, ev0);
    if all_events(rest).len() == 0 {
        assert(ev0.drop_last() + seq![ev0.last()] =~= ev0);
        assert(status == StreamStatus::Done);
        assert(all_events(inputs) =~= ev0);
    } else {
        lemma_status_chunks(m.status, ev0);
        let next = LoopModel { status, ..m };
        lemma_streaming_tail(next, rest);
        assert(forwarded(ev0) + forwarded(all_events(rest)) =~= forwarded(ev0 + all_events(rest)));
    }
}

proof fn lemma_streaming_head(m: LoopModel, inputs: Seq<PollInput>, k: int, resp: Response)
    requires
        !m.sent,
        m.status == status_after(StreamStatus::NoStream, m.pending),
        0 <= k < inputs.len(),
        forall|i: int| 0 <= i < k ==> (#[trigger] inputs[i]).promise is Pending || inputs[i].promise is Absent,
        forall|i: int| 0 <= i <= k ==> (#[trigger] inputs[i]).termination is None,
        inputs[k].promise == PromiseObservation::Fulfilled(Ok(resp)),
        resp.body is Stream,
        chunks_then_done(m.pending + all_events(inputs)),
    ensures
        drive(m, inputs) == (
            seq![Outcome::Stream(StreamResult::Start(resp))] + forwarded(m.pending + all_events(inputs)),
            true,
        ),
    decreases inputs.len(),
{
    let i = inputs[0];
    let rest = inputs.drop_first();
    let ev0 = i.events;
    let held = m.pending + ev0;
    lemma_status_concat(StreamStatus::NoStream, m.pending, ev0);
    let status = status_after(m.status, ev0);
    assert(m.pending + all_events(inputs) =~= held + all_events(rest));
    let start = seq![Outcome::Stream(StreamResult::Start(resp))];
    if k == 0 {
        lemma_split_stream(held, all_events(rest));
        if all_events(rest).len() == 0 {
            assert(held.drop_last() + seq![held.last()] =~= held);
            assert(status == StreamStatus::Done);
        } else {
            lemma_status_chunks(StreamStatus::NoStream, held);
            let next = LoopModel { status, sent: true, pending: Seq::empty() };
            lemma_streaming_tail(next, rest);
            assert(forwarded(held) + forwarded(all_events(rest)) =~= forwarded(held + all_events(rest)));
            assert(start + forwarded(held) + forwarded(all_events(rest)) =~= start + (forwarded(held)
                + forwarded(all_events(rest))));
        }
    } else {
        assert(inputs[0].promise is Pending || inputs[0].promise is Absent);
        assert(inputs[0].termination is None);
        let next = LoopModel { status, sent: false, pending: held };
        assert forall|j: int| 0 <= j < k - 1 implies (#[trigger] rest[j]).promise is Pending
            || rest[j].promise is Absent by {
            assert(rest[j] == inputs[j + 1]);
        }
        assert forall|j: int| 0 <= j <= k - 1 implies (#[trigger] rest[j]).termination is None by {
            assert(rest[j] == inputs[j + 1]);
        }
        lemma_streaming_head(next, rest, k - 1, resp);
        assert(Seq::<Outcome>::empty() + drive(next, rest).0 =~= drive(next, rest).0);
    }
}

/// A streamed response reaches the caller as its start, then each chunk
/// in order, then the end of the stream; the invocation completes with
/// that end and not before. This holds wherever the stream events come
/// among the polls, before or after the handler's promise is fulfilled.
pub proof fn lemma_stream_order(inputs: Seq<PollInput>, k: int, resp: Response)
    requires
        0 <= k < inputs.len(),
        forall|i: int| 0 <= i < k ==> (#[trigger] inputs[i]).promise is Pending || inputs[i].promise is Absent,
        forall|i: int| 0 <= i <= k ==> (#[trigger] inputs[i]).termination is None,
        inputs[k].promise == PromiseObservation::Fulfilled(Ok(resp)),
        resp.body is Stream,
        chunks_then_done(all_events(inputs)),
    ensures
        drive(fresh_loop(), inputs) == (
            seq![Outcome::Stream(StreamResult::Start(resp))] + forwarded(all_events(inputs)),
            true,
        ),
{
    assert(Seq::<BodyEvent>::empty() + all_events(inputs) =~= all_events(inputs));
    lemma_streaming_head(fresh_loop(), inputs, k, resp);
}

} // verus!
