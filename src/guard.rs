//! The resource guards: the tri-state flag that settles the race between a
//! handler call and its timeout watcher, one look of that watcher, and the
//! limit reported back when the heap ceiling is reached.
use vstd::prelude::*;

verus! {

/// Shared between a handler call and its timeout watcher, always written
/// under a lock: the call has not returned yet, it has, or the deadline
/// passed first.
#[derive(Debug, PartialEq, Eq, Structural, Copy, Clone)]
pub enum ExecutionResult {
    WillRun,
    Run,
    TimeoutReached,
}

/// What the timeout watcher does after one look at the flag and the clock.
#[derive(Debug, PartialEq, Eq, Structural, Copy, Clone)]
pub enum WatcherAction {
    /// The call returned: leave without effect.
    Stop,
    /// The deadline passed first: the flag now says so; ask the engine to
    /// stop executing, then leave.
    Terminate,
    /// Look again later.
    Wait,
}

/// One look of the timeout watcher, `elapsed_ms` after the call began.
pub fn watch(flag: &mut ExecutionResult, elapsed_ms: u64, timeout_ms: u64) -> (r: WatcherAction)
    ensures
        *old(flag) == ExecutionResult::Run ==> r == WatcherAction::Stop && *final(flag) == *old(flag),
        *old(flag) != ExecutionResult::Run && elapsed_ms >= timeout_ms ==> r == WatcherAction::Terminate
            && *final(flag) == ExecutionResult::TimeoutReached,
        *old(flag) != ExecutionResult::Run && elapsed_ms < timeout_ms ==> r == WatcherAction::Wait
            && *final(flag) == *old(flag),
{
    if *flag == ExecutionResult::Run {
        WatcherAction::Stop
    } else if elapsed_ms >= timeout_ms {
        *flag = ExecutionResult::TimeoutReached;
        WatcherAction::Terminate
    } else {
        WatcherAction::Wait
    }
}

/// Records that the handler call has come back. A deadline that passed
/// first stays on record; otherwise the watcher is told to stand down.
/// Returns whether the deadline had passed.
pub fn call_returned(flag: &mut ExecutionResult) -> (timed_out: bool)
    ensures
        timed_out == (*old(flag) == ExecutionResult::TimeoutReached),
        timed_out ==> *final(flag) == ExecutionResult::TimeoutReached,
        !timed_out ==> *final(flag) == ExecutionResult::Run,
{
    if *flag == ExecutionResult::TimeoutReached {
        true
    } else {
        *flag = ExecutionResult::Run;
        false
    }
}

/// Twice `current`, or the largest `usize` where twice would not fit.
pub open spec fn raised_heap_limit_of(current: nat) -> nat {
    if 2 * current <= usize::MAX {
        2 * current
    } else {
        usize::MAX as nat
    }
}

/// The limit reported back to the engine when the heap ceiling is reached:
/// twice the current one, so that the engine lives until the requested
/// termination lands (the largest `usize` where twice would not fit).
pub fn raised_heap_limit(current_heap_limit: usize) -> (r: usize)
    ensures
        r as nat == raised_heap_limit_of(current_heap_limit as nat),
{
    if current_heap_limit <= usize::MAX / 2 {
        current_heap_limit * 2
    } else {
        usize::MAX
    }
}

} // verus!
