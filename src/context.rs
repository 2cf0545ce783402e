//! The state attached to one engine context, owned by the thread that
//! drives the engine: the promise table, the handler's result promise, and
//! the sticky terminal result.
use vstd::prelude::*;
use crate::guard::{call_returned, raised_heap_limit, raised_heap_limit_of, ExecutionResult};
use crate::outcome::{
    exception_info_text, exception_text, ExceptionInfo, Termination,
    HANDLER_NOT_PROMISE, UNKNOWN_ERROR,
};
use crate::promises::PromiseTable;

verus! {

/// How the call of the handler came back. `H` is the engine's handle on a promise.
#[derive(Debug)]
pub enum HandlerCall<H> {
    /// It returned a promise.
    Promise(H),
    /// It returned a value that is not a promise.
    NotPromise,
    /// It did not return: it threw, or the engine stopped it; the exception
    /// where the engine has one.
    Threw(Option<ExceptionInfo>),
}

/// Whether `t` is the terminal result owed for a handler call that came
/// back as `call`, where `timed_out` says whether the deadline passed first.
/// A call that returned a promise in time owes none.
pub open spec fn settles_as<H>(call: HandlerCall<H>, timed_out: bool, t: Option<Termination>) -> bool {
    if timed_out {
        t == Some(Termination::Timeout)
    } else {
        match call {
            HandlerCall::Promise(_) => t is None,
            HandlerCall::NotPromise => match t {
                Some(Termination::Error(m)) => m@ == HANDLER_NOT_PROMISE@,
                _ => false,
            },
            HandlerCall::Threw(Some(info)) => match t {
                Some(Termination::Error(m)) => m@ == exception_info_text(info),
                _ => false,
            },
            HandlerCall::Threw(None) => match t {
                Some(Termination::Error(m)) => m@ == UNKNOWN_ERROR@,
                _ => false,
            },
        }
    }
}

/// The terminal result owed for a handler call; see [`settles_as`].
pub fn call_termination<H>(call: HandlerCall<H>, timed_out: bool) -> (r: (Option<Termination>, Option<H>))
    ensures
        settles_as(call, timed_out, r.0),
        r.1 == (match call {
            HandlerCall::Promise(h) => if timed_out { None } else { Some(h) },
            _ => None,
        }),
{
    if timed_out {
        return (Some(Termination::Timeout), None);
    }
    match call {
        HandlerCall::Promise(h) => (None, Some(h)),
        HandlerCall::NotPromise => (Some(Termination::Error(String::from_str(HANDLER_NOT_PROMISE))), None),
        HandlerCall::Threw(Some(info)) => (Some(Termination::Error(exception_text(info))), None),
        HandlerCall::Threw(None) => (Some(Termination::Error(String::from_str(UNKNOWN_ERROR))), None),
    }
}

/// Mutable state of one engine context.
pub struct ContextState<P, H> {
    pub promises: PromiseTable<P>,
    pub handler_result: Option<H>,
    pub termination_result: Option<Termination>,
}

impl<P, H> ContextState<P, H> {
    pub open spec fn wf(&self) -> bool {
        self.promises.wf()
    }

    pub fn new() -> (r: Self)
        ensures
            r.wf(),
            r.promises@ == Map::<usize, P>::empty(),
            r.handler_result is None,
            r.termination_result is None,
    {
        ContextState { promises: PromiseTable::new(), handler_result: None, termination_result: None }
    }

    /// Records how the handler call came back, under the race flag shared
    /// with the timeout watcher. A promise returned in time is kept as the
    /// handler's result; any other outcome becomes the terminal result,
    /// unless one is already set (a guard fired during the call).
    pub fn settle_handler_call(&mut self, flag: &mut ExecutionResult, call: HandlerCall<H>)
        ensures
            *final(flag) == if *old(flag) == ExecutionResult::TimeoutReached {
                ExecutionResult::TimeoutReached
            } else {
                ExecutionResult::Run
            },
            final(self).promises == old(self).promises,
            ({
                let timed_out = *old(flag) == ExecutionResult::TimeoutReached;
                match call {
                    HandlerCall::Promise(h) if !timed_out => {
                        &&& final(self).handler_result == Some(h)
                        &&& final(self).termination_result == old(self).termination_result
                    },
                    _ => {
                        &&& final(self).handler_result == old(self).handler_result
                        &&& old(self).termination_result is Some ==> final(self).termination_result
                            == old(self).termination_result
                        &&& old(self).termination_result is None ==> settles_as(
                            call,
                            timed_out,
                            final(self).termination_result,
                        )
                    },
                }
            }),
    {
        let timed_out = call_returned(flag);
        let (termination, promise) = call_termination(call, timed_out);
        match promise {
            Some(h) => {
                self.handler_result = Some(h);
            },
            None => {
                if self.termination_result.is_none() {
                    self.termination_result = termination;
                }
            },
        }
    }

    /// The heap ceiling was reached: the terminal result becomes the memory
    /// limit, whatever it was, and the raised limit to report back to the
    /// engine is returned.
    pub fn heap_limit_reached(&mut self, current_heap_limit: usize) -> (r: usize)
        ensures
            final(self).termination_result == Some(Termination::MemoryLimit),
            final(self).promises == old(self).promises,
            final(self).handler_result == old(self).handler_result,
            r as nat == raised_heap_limit_of(current_heap_limit as nat),
    {
        self.termination_result = Some(Termination::MemoryLimit);
        raised_heap_limit(current_heap_limit)
    }
}

} // verus!
