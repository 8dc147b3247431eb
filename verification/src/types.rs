use vstd::prelude::*;

verus! {

/// Identifier of a green thread, unique among the live threads of one run.
pub type ThreadId = u64;

/// Default stack size given to a green thread when the builder sets none.
pub const DEFAULT_STACK_SIZE: usize = 2 * 1024 * 1024;

/// Default preemption interval, in milliseconds.
pub const DEFAULT_PREEMPTION_INTERVAL_MS: u64 = 10;

/// Lifecycle state of a green-thread context.
///
/// `Ready` becomes `Running` when the context is switched into; `Running`
/// becomes `Ready` again on a cooperative rotation, or `Terminated` when the
/// unit of work returns. `Terminated` is absorbing: a terminated context is
/// removed from the run queue at once and never queued again.
#[derive(Clone, Copy, PartialEq, Eq, Structural, Debug)]
pub enum ThreadState {
    Ready,
    Running,
    Terminated,
}

/// Identity and lifecycle state of one green thread, as reported to callers.
#[derive(Clone, Copy, PartialEq, Eq, Structural, Debug)]
pub struct ThreadInfo {
    pub id: ThreadId,
    pub state: ThreadState,
}

/// Scheduler configuration: the stack size given to the first green thread
/// and the interval at which the preemption timer requests a rotation.
#[derive(Clone, Copy, PartialEq, Eq, Structural, Debug)]
pub struct SchedulerConfig {
    pub default_stack_size: usize,
    pub preemption_interval_ms: u64,
}

impl Default for SchedulerConfig {
    fn default() -> (c: Self)
        ensures
            c.default_stack_size == DEFAULT_STACK_SIZE,
            c.preemption_interval_ms == DEFAULT_PREEMPTION_INTERVAL_MS,
    {
        SchedulerConfig {
            default_stack_size: DEFAULT_STACK_SIZE,
            preemption_interval_ms: DEFAULT_PREEMPTION_INTERVAL_MS,
        }
    }
}

} // verus!
