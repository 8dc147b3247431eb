use vstd::prelude::*;

use crate::error::Error;

verus! {

/// FIFO storage for the batch runner's pending tasks. Its elements are boxed
/// zero-argument closures, which Verus cannot look into, so the queue is held
/// behind this opaque struct. Two names describe it: `coop_tasks`, the tags
/// of the tasks it still holds, front first; and `coop_ran`, the tags of the
/// tasks it has handed to execution, in order (witnessed by a count the
/// executing wrapper keeps).
#[verifier::external_body]
pub struct TaskQueue {
    inner: std::collections::VecDeque<Box<dyn FnOnce() + Send + 'static>>,
    ran: u64,
}

/// The tags of the tasks queued in `q`, front first.
pub uninterp spec fn coop_tasks(q: TaskQueue) -> Seq<nat>;

/// The tags of the tasks `q` has handed to execution, in the order they ran.
pub uninterp spec fn coop_ran(q: TaskQueue) -> Seq<nat>;

/// Relies on std's `VecDeque::new`: the new queue holds nothing, and it has
/// run nothing.
#[verifier::external_body]
fn task_queue_new() -> (q: TaskQueue)
    ensures
        coop_tasks(q) == Seq::<nat>::empty(),
        coop_ran(q) == Seq::<nat>::empty(),
{
    TaskQueue { inner: std::collections::VecDeque::new(), ran: 0 }
}

/// Relies on std's `VecDeque::push_back`: the queued tasks keep their order
/// and the new task stands at the back; nothing is executed.
#[verifier::external_body]
fn task_queue_push<F: FnOnce() + Send + 'static>(q: &mut TaskQueue, task: F)
    ensures
        coop_tasks(*final(q)).len() == coop_tasks(*old(q)).len() + 1,
        coop_tasks(*final(q)).drop_last() == coop_tasks(*old(q)),
        coop_ran(*final(q)) == coop_ran(*old(q)),
{
    q.inner.push_back(Box::new(task));
}

/// Relies on std's `VecDeque::pop_front`: removes the front task, if any, and
/// runs it to completion before returning, appending its tag to the executed
/// record. Returns whether a task ran.
#[verifier::external_body]
fn task_queue_run_front(q: &mut TaskQueue) -> (ran: bool)
    ensures
        ran == (coop_tasks(*old(q)).len() > 0),
        ran ==> coop_tasks(*final(q)) == coop_tasks(*old(q)).drop_first(),
        ran ==> coop_ran(*final(q)) == coop_ran(*old(q)).push(coop_tasks(*old(q))[0]),
        !ran ==> *final(q) == *old(q),
{
    match q.inner.pop_front() {
        Some(task) => {
            q.ran = q.ran.wrapping_add(1);
            task();
            true
        },
        None => false,
    }
}

/// A trivial FIFO batch-task runner: it executes boxed zero-argument
/// closures sequentially, in the order they were added, with no stack
/// switching.
pub struct CooperativeScheduler {
    queue: TaskQueue,
}

impl Default for CooperativeScheduler {
    fn default() -> (s: Self)
        ensures
            s.pending() == Seq::<nat>::empty(),
            s.ran() == Seq::<nat>::empty(),
    {
        Self::new()
    }
}

impl CooperativeScheduler {
    /// The tags of the pending tasks, front first.
    pub closed spec fn pending(self) -> Seq<nat> {
        coop_tasks(self.queue)
    }

    /// The tags of the tasks this runner has handed to execution, in the
    /// order they ran.
    pub closed spec fn ran(self) -> Seq<nat> {
        coop_ran(self.queue)
    }

    /// A runner with no pending tasks that has run nothing.
    pub fn new() -> (s: Self)
        ensures
            s.pending() == Seq::<nat>::empty(),
            s.ran() == Seq::<nat>::empty(),
    {
        CooperativeScheduler { queue: task_queue_new() }
    }

    /// Append a task at the back of the queue. Always succeeds: the pending
    /// tasks keep their order, the new one stands at the back, and nothing
    /// is executed.
    pub fn add_task<F: FnOnce() + Send + 'static>(&mut self, task: F) -> (r: Result<(), Error>)
        ensures
            r is Ok,
            final(self).pending().len() == old(self).pending().len() + 1,
            final(self).pending().drop_last() == old(self).pending(),
            final(self).ran() == old(self).ran(),
    {
        task_queue_push(&mut self.queue, task);
        Ok(())
    }

    /// Run pending tasks front first, each to completion, until none remain.
    /// Always succeeds; afterwards the queue is empty, and every task that
    /// was pending has been handed to execution, in FIFO order, after
    /// everything this runner ran before.
    pub fn run(&mut self) -> (r: Result<(), Error>)
        ensures
            r is Ok,
            final(self).pending() == Seq::<nat>::empty(),
            final(self).ran() == old(self).ran() + old(self).pending(),
    {
        loop
            invariant
                coop_ran(self.queue) + coop_tasks(self.queue) == coop_ran(old(self).queue)
                    + coop_tasks(old(self).queue),
            ensures
                coop_tasks(self.queue).len() == 0,
                coop_ran(self.queue) == coop_ran(old(self).queue) + coop_tasks(old(self).queue),
            decreases coop_tasks(self.queue).len(),
        {
            let ghost prev_ran = coop_ran(self.queue);
            let ghost prev_tasks = coop_tasks(self.queue);
            let ran_one = task_queue_run_front(&mut self.queue);
            if !ran_one {
                proof {
                    assert(prev_ran + prev_tasks =~= prev_ran);
                }
                break ;
            }
            proof {
                assert(coop_ran(self.queue) + coop_tasks(self.queue) =~= prev_ran + prev_tasks);
            }
        }
        proof {
            assert(self.pending() =~= Seq::<nat>::empty());
        }
        Ok(())
    }
}

} // verus!
