//! The compiled handler of an isolate: compiled on the first invocation,
//! kept for the later ones; a failed compilation is kept too, and never
//! retried.
use vstd::prelude::*;
use crate::outcome::{error_text, error_text_of, Outcome, RunResult};

verus! {

/// The result of compiling the bundle, once it has been compiled. `H` is
/// the engine's handle on the handler function.
pub struct Compilation<H> {
    handler: Option<H>,
    error: Option<String>,
    compilations: Ghost<nat>,
}

impl<H> Compilation<H> {
    pub closed spec fn handler_spec(&self) -> Option<H> {
        self.handler
    }

    pub closed spec fn error_spec(&self) -> Option<Seq<char>> {
        match self.error {
            Some(e) => Some(e@),
            None => None,
        }
    }

    /// How many times the bundle has been compiled.
    pub closed spec fn compilations(&self) -> nat {
        self.compilations@
    }

    pub closed spec fn wf(&self) -> bool {
        &&& self.compilations@ <= 1
        &&& (self.compilations@ == 0 <==> (self.handler is None && self.error is None))
        &&& !(self.handler is Some && self.error is Some)
    }

    pub open spec fn needs_compile_spec(&self) -> bool {
        self.handler_spec() is None && self.error_spec() is None
    }

    pub fn new() -> (r: Self)
        ensures
            r.wf(),
            r.handler_spec() is None,
            r.error_spec() is None,
            r.compilations() == 0,
    {
        Compilation { handler: None, error: None, compilations: Ghost(0) }
    }

    /// Whether the bundle still has to be compiled: neither a handler nor
    /// an error has been kept yet.
    pub fn needs_compile(&self) -> (r: bool)
        ensures
            r == self.needs_compile_spec(),
    {
        self.handler.is_none() && self.error.is_none()
    }

    /// Keeps what compiling the bundle gave: the handler, or the error text.
    pub fn record(&mut self, result: Result<H, String>)
        requires
            old(self).wf(),
            old(self).needs_compile_spec(),
        ensures
            final(self).wf(),
            final(self).compilations() == old(self).compilations() + 1,
            match result {
                Ok(h) => final(self).handler_spec() == Some(h) && final(self).error_spec() is None,
                Err(e) => final(self).handler_spec() is None && final(self).error_spec() == Some(
                    error_text_of(e@),
                ),
            },
    {
        match result {
            Ok(h) => {
                self.handler = Some(h);
            },
            Err(e) => {
                self.error = Some(error_text(e));
            },
        }
        self.compilations = Ghost(self.compilations@ + 1);
    }

    pub fn handler(&self) -> (r: Option<&H>)
        ensures
            r matches Some(h) ==> self.handler_spec() == Some(*h),
            r is None <==> self.handler_spec() is None,
    {
        self.handler.as_ref()
    }

    /// The outcome an invocation ends with because the bundle did not
    /// compile, if it did not.
    pub fn failure(&self) -> (r: Option<RunResult>)
        ensures
            r is None <==> self.error_spec() is None,
            r matches Some(res) ==> res@ == Outcome::Error(self.error_spec()->0),
    {
        match &self.error {
            Some(e) => Some(RunResult::Error(e.clone())),
            None => None,
        }
    }
}

/// The bundle is compiled at most once in an isolate's life; once it has
/// been, every later invocation skips compilation.
pub proof fn lemma_compiled_at_most_once<H>(c: Compilation<H>)
    requires
        c.wf(),
    ensures
        c.compilations() <= 1,
        c.compilations() == 1 <==> !c.needs_compile_spec(),
{
}

} // verus!
