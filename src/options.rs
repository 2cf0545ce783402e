//! Per-isolate configuration and the statistics handed to its observer.
use std::collections::HashMap;
use std::time::Duration;
use vstd::prelude::*;

verus! {

/// Wall-clock budget of one invocation when none is configured, in milliseconds.
pub const DEFAULT_TIMEOUT_MS: usize = 50;

/// Heap ceiling when none is configured, in megabytes.
pub const DEFAULT_MEMORY_MB: usize = 128;

/// Bytes in one megabyte, as the heap ceiling counts them.
pub const BYTES_PER_MB: usize = 1048576;

/// What an isolate reports after an invocation: time spent since the
/// invocation began and the heap in use at its end.
#[derive(Debug, Copy, Clone)]
pub struct IsolateStatistics {
    pub cpu_time: Duration,
    pub memory_usage: usize,
}

/// Settings of one isolate, fixed once it is built.
///
/// `D` is the drop observer, called with the isolate's id; `S` is the
/// statistics observer, called with the id and an [`IsolateStatistics`].
pub struct IsolateOptions<D, S> {
    pub code: String,
    pub environment_variables: Option<HashMap<String, String>>,
    /// Heap ceiling in megabytes.
    pub memory: usize,
    /// Wall-clock budget of one invocation in milliseconds.
    pub timeout: usize,
    pub id: Option<String>,
    pub on_drop: Option<D>,
    pub on_statistics: Option<S>,
}

/// The heap ceiling in bytes that a ceiling of `memory_mb` megabytes stands for.
pub open spec fn heap_limit_of(memory_mb: nat) -> nat {
    memory_mb * (BYTES_PER_MB as nat)
}

impl<D, S> IsolateOptions<D, S> {
    /// Options for `code` with the default ceiling and timeout, no
    /// environment, no id and no observers.
    pub fn new(code: String) -> (r: Self)
        ensures
            r.code == code,
            r.environment_variables is None,
            r.timeout == DEFAULT_TIMEOUT_MS,
            r.memory == DEFAULT_MEMORY_MB,
            r.id is None,
            r.on_drop is None,
            r.on_statistics is None,
    {
        IsolateOptions {
            code,
            environment_variables: None,
            timeout: DEFAULT_TIMEOUT_MS,
            memory: DEFAULT_MEMORY_MB,
            id: None,
            on_drop: None,
            on_statistics: None,
        }
    }

    pub fn with_environment_variables(self, environment_variables: HashMap<String, String>) -> (r: Self)
        ensures
            r == (IsolateOptions { environment_variables: Some(environment_variables), ..self }),
    {
        let mut this = self;
        this.environment_variables = Some(environment_variables);
        this
    }

    pub fn with_timeout(self, timeout: usize) -> (r: Self)
        ensures
            r == (IsolateOptions { timeout, ..self }),
    {
        let mut this = self;
        this.timeout = timeout;
        this
    }

    pub fn with_memory(self, memory: usize) -> (r: Self)
        ensures
            r == (IsolateOptions { memory, ..self }),
    {
        let mut this = self;
        this.memory = memory;
        this
    }

    pub fn with_id(self, id: String) -> (r: Self)
        ensures
            r == (IsolateOptions { id: Some(id), ..self }),
    {
        let mut this = self;
        this.id = Some(id);
        this
    }

    pub fn with_on_drop_callback(self, on_drop: D) -> (r: Self)
        ensures
            r == (IsolateOptions { on_drop: Some(on_drop), ..self }),
    {
        let mut this = self;
        this.on_drop = Some(on_drop);
        this
    }

    pub fn with_on_statistics_callback(self, on_statistics: S) -> (r: Self)
        ensures
            r == (IsolateOptions { on_statistics: Some(on_statistics), ..self }),
    {
        let mut this = self;
        this.on_statistics = Some(on_statistics);
        this
    }

    /// The heap ceiling in bytes, or `None` where it does not fit in a `usize`.
    pub fn heap_limit_bytes(&self) -> (r: Option<usize>)
        ensures
            r is Some <==> heap_limit_of(self.memory as nat) <= usize::MAX,
            r matches Some(b) ==> b as nat == heap_limit_of(self.memory as nat),
    {
        self.memory.checked_mul(BYTES_PER_MB)
    }
}

} // verus!
