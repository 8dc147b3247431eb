use vstd::prelude::*;

verus! {

/// The cooperative checkpoint decision.
///
/// The preemption timer's signal handler does exactly one thing: it sets an
/// atomic "preemption requested" flag. Real scheduling work happens only at
/// explicit checkpoints in running green-thread code. The embedding program
/// reads and clears that flag, passes it here together with whether the timer
/// is enabled, and performs one rotation exactly when this decision says so.
///
/// A thread that never reaches a checkpoint is therefore never rotated out
/// (it may starve its siblings); and while the timer is enabled, every
/// checkpoint that observes a pending request does rotate.
pub fn check_preemption(timer_enabled: bool, requested: bool) -> (rotate: bool)
    ensures
        rotate == (timer_enabled && requested),
{
    timer_enabled && requested
}

} // verus!
