use vstd::prelude::*;

use crate::context::Context;
use crate::context::Registers;
use crate::context::MIN_STACK_SIZE;
use crate::error::Error;
use crate::types::ThreadInfo;
use crate::types::ThreadState;

verus! {

broadcast use vstd::std_specs::hash::group_hash_axioms;

/// Relies on `rand::random`: draws a value of the requested type from the
/// thread-local generator. Nothing is promised of the value.
pub assume_specification<T>[ rand::random::<T> ]() -> (r: T)
    where
        rand::distributions::Standard: rand::distributions::Distribution<T>,
;

/// What the embedding program's trampoline must do after the current context
/// has terminated and been cleaned up.
#[derive(Clone, Copy, PartialEq, Eq, Structural, Debug)]
pub enum HandoffAction {
    /// Resume the context now at the front of the run queue.
    SwitchToNext,
    /// The queue has drained: resume the main continuation.
    ResumeMain,
    /// The queue has drained but no main continuation was saved. This is an
    /// internal invariant violation and the embedding program must abort;
    /// `terminate_current` proves it is never returned from a well-formed
    /// state.
    NoMainSaved,
}

/// One round-robin rotation of the queue's id ring: the front id moves to
/// the back; a ring of fewer than two ids is left as it is.
pub open spec fn rotate_ids(q: Seq<u64>) -> Seq<u64> {
    if q.len() <= 1 {
        q
    } else {
        q.drop_first().push(q[0])
    }
}

/// `n` consecutive round-robin rotations.
pub open spec fn rotate_ids_n(q: Seq<u64>, n: nat) -> Seq<u64>
    decreases n,
{
    if n == 0 {
        q
    } else {
        rotate_ids(rotate_ids_n(q, (n - 1) as nat))
    }
}

/// Rotation preserves the queued order: after `n` rotations the ring is
/// exactly the ids from position `n` on, in their original relative order,
/// followed by the first `n` ids, in theirs. In particular contexts spawned
/// in FIFO order keep that relative order under every later rotation.
pub proof fn lemma_rotation_preserves_order(q: Seq<u64>, n: int)
    requires
        0 <= n <= q.len(),
    ensures
        rotate_ids_n(q, n as nat) == q.subrange(n, q.len() as int) + q.subrange(0, n),
    decreases n,
{
    if n == 0 {
        assert(rotate_ids_n(q, 0) =~= q.subrange(0, q.len() as int) + q.subrange(0, 0));
    } else {
        lemma_rotation_preserves_order(q, n - 1);
        let r = rotate_ids_n(q, (n - 1) as nat);
        assert(r == q.subrange(n - 1, q.len() as int) + q.subrange(0, n - 1));
        if q.len() <= 1 {
            assert(n == 1);
            assert(r =~= q);
            assert(rotate_ids(r) =~= q.subrange(1, q.len() as int) + q.subrange(0, 1));
        } else {
            assert(r.len() == q.len());
            assert(r[0] == q[n - 1]);
            assert(rotate_ids(r) =~= q.subrange(n, q.len() as int) + q.subrange(0, n));
        }
    }
}

/// Round-robin fairness of the rotation step: ids queued in FIFO order are
/// visited in that order. Starting from any ring of ids, the `i`-th rotation
/// brings exactly the `i`-th queued id to the front, so each queued id is
/// visited exactly once before any repeats.
pub proof fn lemma_round_robin_visits(q: Seq<u64>, i: int)
    requires
        0 <= i < q.len(),
    ensures
        rotate_ids_n(q, i as nat)[0] == q[i],
{
    lemma_rotation_preserves_order(q, i);
}

/// After as many rotations as there are queued ids, the ring has returned to
/// its original order: rotation repeats the same fair cycle forever.
pub proof fn lemma_round_robin_cycle(q: Seq<u64>)
    ensures
        rotate_ids_n(q, q.len()) == q,
{
    lemma_rotation_preserves_order(q, q.len() as int);
    assert(rotate_ids_n(q, q.len()) =~= q);
}

/// The set of ids strictly below `n`, for the pigeonhole argument of
/// `fresh_id`.
spec fn ids_below(n: nat) -> Set<u64> {
    Set::new(|x: u64| (x as nat) < n)
}

proof fn lemma_ids_below_len(n: nat)
    requires
        n <= u64::MAX as nat + 1,
    ensures
        ids_below(n).finite(),
        ids_below(n).len() == n,
    decreases n,
{
    if n == 0 {
        assert(ids_below(0) =~= Set::<u64>::empty());
    } else {
        lemma_ids_below_len((n - 1) as nat);
        let prev = ids_below((n - 1) as nat);
        let top = ((n - 1) as nat) as u64;
        assert(ids_below(n) =~= prev.insert(top));
        assert(!prev.contains(top));
    }
}

/// The bookkeeping state of one active run: the ordered ring of
/// non-terminated contexts (front first), the set of live ids, the id of the
/// context currently executing, the saved main continuation, the preemption
/// timer's enabled flag, and at most one stack pending reclamation.
pub struct Runtime {
    contexts: Vec<Context>,
    ids: std::collections::HashSet<u64>,
    current_id: u64,
    main_regs: Registers,
    main_saved: bool,
    timer_enabled: bool,
    unused_stack: Option<(usize, usize)>,
}

impl Runtime {
    /// The run queue, front first.
    pub closed spec fn queue(self) -> Seq<Context> {
        self.contexts@
    }

    /// The set of live green-thread ids.
    pub closed spec fn id_view(self) -> Set<u64> {
        self.ids@
    }

    /// The id recorded as currently executing.
    pub closed spec fn current(self) -> u64 {
        self.current_id
    }

    /// Whether the main continuation is saved: true exactly while a run is
    /// active.
    pub closed spec fn has_main(self) -> bool {
        self.main_saved
    }

    /// The saved main continuation.
    pub closed spec fn main_continuation(self) -> Registers {
        self.main_regs
    }

    /// Whether the preemption timer is recorded as enabled.
    pub closed spec fn timer_on(self) -> bool {
        self.timer_enabled
    }

    /// The stack region stashed for reclamation, if any.
    pub closed spec fn pending_stack(self) -> Option<(usize, usize)> {
        self.unused_stack
    }

    /// The ids of the queued contexts, front first.
    pub open spec fn queue_ids(self) -> Seq<u64> {
        self.queue().map_values(|c: Context| c.id)
    }

    /// Whether a run is active with at least one live green thread, so that
    /// spawning and rotation have state to operate on.
    pub open spec fn is_active(self) -> bool {
        self.has_main() && self.queue().len() > 0
    }

    /// The runtime invariant: every queued context is well formed and not
    /// terminated; the front context, and only it, is running, and it is the
    /// one recorded as current; queued ids are distinct and the live-id set
    /// holds exactly them; and the queue is non-empty only while a run is
    /// active.
    pub open spec fn wf(self) -> bool {
        &&& forall|i: int| 0 <= i < self.queue().len() ==> (#[trigger] self.queue()[i]).wf()
        &&& forall|i: int|
            1 <= i < self.queue().len() ==> (#[trigger] self.queue()[i]).state
                == ThreadState::Ready
        &&& self.queue().len() > 0 ==> self.queue()[0].state == ThreadState::Running
        &&& self.queue().len() > 0 ==> self.current() == self.queue()[0].id
        &&& self.queue_ids().no_duplicates()
        &&& self.id_view() == self.queue_ids().to_set()
        &&& self.queue().len() > 0 ==> self.has_main()
    }

    /// An idle runtime: no queued context, no live id, no saved main
    /// continuation, the timer off, and no stack pending reclamation.
    pub fn new() -> (rt: Runtime)
        ensures
            rt.wf(),
            rt.queue() == Seq::<Context>::empty(),
            rt.id_view() == Set::<u64>::empty(),
            !rt.has_main(),
            !rt.timer_on(),
            rt.pending_stack() is None,
    {
        let rt = Runtime {
            contexts: Vec::new(),
            ids: std::collections::HashSet::new(),
            current_id: 0,
            main_regs: Registers::zeroed(),
            main_saved: false,
            timer_enabled: false,
            unused_stack: None,
        };
        proof {
            assert(rt.queue_ids() =~= Seq::<u64>::empty());
            assert(rt.id_view() =~= rt.queue_ids().to_set());
        }
        rt
    }

    /// An id that is not yet live, drawn from the random generator; inserts
    /// it into the live-id set. Random candidates are tried a bounded number
    /// of times; if every draw collides, a linear scan finds a free id,
    /// which the pigeonhole argument proves must exist.
    fn fresh_id(&mut self) -> (id: u64)
        requires
            old(self).wf(),
        ensures
            !old(self).id_view().contains(id),
            final(self).id_view() == old(self).id_view().insert(id),
            final(self).queue() == old(self).queue(),
            final(self).current() == old(self).current(),
            final(self).has_main() == old(self).has_main(),
            final(self).main_continuation() == old(self).main_continuation(),
            final(self).timer_on() == old(self).timer_on(),
            final(self).pending_stack() == old(self).pending_stack(),
    {
        let mut attempts: usize = 0;
        while attempts < 8
            invariant
                *self == *old(self),
            decreases 8 - attempts,
        {
            let candidate: u64 = rand::random::<u64>();
            if !self.ids.contains(&candidate) {
                self.ids.insert(candidate);
                return candidate;
            }
            attempts = attempts + 1;
        }
        let n: usize = self.ids.len();
        proof {
            vstd::seq_lib::seq_to_set_is_finite(old(self).queue_ids());
            assert(self.ids@.finite());
        }
        let mut c: u64 = 0;
        while c < n as u64
            invariant
                *self == *old(self),
                n == self.ids@.len(),
                self.ids@.finite(),
                c <= n as u64,
                forall|x: u64| x < c ==> self.ids@.contains(x),
            decreases n as int - c as int,
        {
            if !self.ids.contains(&c) {
                self.ids.insert(c);
                return c;
            }
            c = c + 1;
        }
        if !self.ids.contains(&c) {
            self.ids.insert(c);
            return c;
        }
        proof {
            let s = self.ids@;
            assert forall|x: u64| (x as nat) < n as nat + 1 implies s.contains(x) by {
                if x < c {
                } else {
                    assert(x == c);
                }
            }
            assert(ids_below(n as nat + 1).subset_of(s));
            lemma_ids_below_len(n as nat + 1);
            vstd::set_lib::lemma_len_subset(ids_below(n as nat + 1), s);
            assert(false);
        }
        vstd::pervasive::unreached()
    }

    /// Record the start of a run: the main-continuation slot is reserved (to
    /// be filled by the first capture) and the preemption timer is recorded
    /// as enabled; the embedding program starts the ticking helper at the
    /// configured interval at the same point.
    pub fn save_main(&mut self)
        requires
            old(self).wf(),
            !old(self).has_main(),
            old(self).queue().len() == 0,
        ensures
            final(self).wf(),
            final(self).has_main(),
            final(self).timer_on(),
            final(self).queue() == old(self).queue(),
            final(self).id_view() == old(self).id_view(),
            final(self).current() == old(self).current(),
            final(self).pending_stack() == old(self).pending_stack(),
    {
        self.main_regs = Registers::zeroed();
        self.main_saved = true;
        self.timer_enabled = true;
    }

    /// Store a captured main continuation into the saved slot.
    pub fn install_main(&mut self, regs: Registers)
        requires
            old(self).wf(),
            old(self).has_main(),
        ensures
            final(self).wf(),
            final(self).main_continuation() == regs,
            final(self).queue() == old(self).queue(),
            final(self).id_view() == old(self).id_view(),
            final(self).current() == old(self).current(),
            final(self).has_main() == old(self).has_main(),
            final(self).timer_on() == old(self).timer_on(),
            final(self).pending_stack() == old(self).pending_stack(),
    {
        self.main_regs = regs;
    }

    /// The saved main continuation, for the final resume when the pool has
    /// drained.
    pub fn main_regs(&self) -> (r: Registers)
        requires
            self.has_main(),
        ensures
            r == self.main_continuation(),
    {
        self.main_regs
    }

    /// Create the first context of a run, wrapping the entry work: it is
    /// marked `Running`, recorded as current, and queued as the only
    /// element. Fails with the stack-size error, before any id is consumed,
    /// if and only if the size is below the floor.
    pub fn start_first(&mut self, stack_base: usize, stack_size: usize, trampoline: u64) -> (r:
        Result<u64, Error>)
        requires
            old(self).wf(),
            old(self).has_main(),
            old(self).queue().len() == 0,
            stack_base + stack_size <= u64::MAX,
        ensures
            final(self).wf(),
            r is Ok <==> stack_size >= MIN_STACK_SIZE,
            r matches Err(e) ==> e == (Error::InvalidStackSize {
                size: stack_size,
                min: MIN_STACK_SIZE,
            }) && *final(self) == *old(self),
            r matches Ok(id) ==> {
                &&& final(self).queue() == seq![
                    (Context {
                        state: ThreadState::Running,
                        ..Context::spec_new(stack_base, stack_size, id, trampoline)
                    }),
                ]
                &&& final(self).current() == id
                &&& final(self).id_view() == Set::<u64>::empty().insert(id)
                &&& final(self).has_main()
                &&& final(self).timer_on() == old(self).timer_on()
                &&& final(self).main_continuation() == old(self).main_continuation()
                &&& final(self).pending_stack() == old(self).pending_stack()
            },
    {
        if stack_size < MIN_STACK_SIZE {
            return Err(Error::InvalidStackSize { size: stack_size, min: MIN_STACK_SIZE });
        }
        proof {
            assert(old(self).queue_ids() =~= Seq::<u64>::empty());
            assert(old(self).id_view() =~= Set::<u64>::empty());
        }
        let id = self.fresh_id();
        let mut ctx = match Context::new(stack_base, stack_size, id, trampoline) {
            Ok(c) => c,
            Err(_) => {
                proof {
                    assert(false);
                }
                vstd::pervasive::unreached()
            },
        };
        ctx.state = ThreadState::Running;
        self.current_id = id;
        self.contexts.push(ctx);
        proof {
            assert(self.queue_ids() =~= Seq::<u64>::empty().push(id));
            assert(self.queue_ids()[0] == id);
            assert forall|x: u64| self.queue_ids().to_set().contains(x) implies x == id by {
                let k = choose|k: int| 0 <= k < self.queue_ids().len() && self.queue_ids()[k] == x;
                assert(k == 0);
            }
            assert(self.id_view() =~= self.queue_ids().to_set());
        }
        Ok(id)
    }

    /// Spawn a green thread: a fresh id is drawn, a `Ready` context for the
    /// given stack region is appended at the back of the run queue (FIFO),
    /// and the id is returned. The embedding program performs one rotation
    /// right after, so the new work gets fair turn-taking.
    ///
    /// Fails with `NotInitialized` if no run is active, and with the
    /// stack-size error if the size is below the floor; in both cases the
    /// state is unchanged and no id is consumed.
    pub fn spawn(&mut self, stack_base: usize, stack_size: usize, trampoline: u64) -> (r: Result<
        u64,
        Error,
    >)
        requires
            old(self).wf(),
            stack_base + stack_size <= u64::MAX,
        ensures
            final(self).wf(),
            !old(self).is_active() ==> r == Result::<u64, Error>::Err(Error::NotInitialized)
                && *final(self) == *old(self),
            old(self).is_active() && stack_size < MIN_STACK_SIZE ==> r == Result::<u64, Error>::Err(
                Error::InvalidStackSize { size: stack_size, min: MIN_STACK_SIZE },
            ) && *final(self) == *old(self),
            old(self).is_active() && stack_size >= MIN_STACK_SIZE ==> (r matches Ok(id) && {
                &&& !old(self).id_view().contains(id)
                &&& final(self).queue() == old(self).queue().push(
                    Context::spec_new(stack_base, stack_size, id, trampoline),
                )
                &&& final(self).id_view() == old(self).id_view().insert(id)
                &&& final(self).current() == old(self).current()
                &&& final(self).has_main() == old(self).has_main()
                &&& final(self).timer_on() == old(self).timer_on()
                &&& final(self).main_continuation() == old(self).main_continuation()
                &&& final(self).pending_stack() == old(self).pending_stack()
            }),
    {
        if !self.main_saved || self.contexts.len() == 0 {
            return Err(Error::NotInitialized);
        }
        if stack_size < MIN_STACK_SIZE {
            return Err(Error::InvalidStackSize { size: stack_size, min: MIN_STACK_SIZE });
        }
        let id = self.fresh_id();
        let ctx = match Context::new(stack_base, stack_size, id, trampoline) {
            Ok(c) => c,
            Err(_) => {
                proof {
                    assert(false);
                }
                vstd::pervasive::unreached()
            },
        };
        self.contexts.push(ctx);
        proof {
            let oq = old(self).queue_ids();
            assert(self.queue_ids() =~= oq.push(id));
            assert(!oq.contains(id));
            assert(self.queue_ids().no_duplicates());
            assert forall|x: u64| self.queue_ids().to_set().contains(x) implies old(self).id_view().insert(id).contains(x) by {
                let k = choose|k: int| 0 <= k < self.queue_ids().len() && self.queue_ids()[k] == x;
                if k < oq.len() {
                    assert(oq[k] == x);
                }
            }
            assert forall|x: u64| old(self).id_view().insert(id).contains(x) implies self
                .queue_ids()
                .to_set()
                .contains(x) by {
                if x == id {
                    assert(self.queue_ids()[oq.len() as int] == x);
                } else {
                    let k = choose|k: int| 0 <= k < oq.len() && oq[k] == x;
                    assert(self.queue_ids()[k] == x);
                }
            }
            assert(self.id_view() =~= self.queue_ids().to_set());
        }
        Ok(id)
    }

    /// One round-robin rotation: with fewer than two queued contexts this is
    /// a no-op; otherwise the front (running) context is marked `Ready` and
    /// moved to the back, the new front is marked `Running` and recorded as
    /// current, and `true` is returned. The embedding program then captures
    /// the moved context's continuation in place and, on the first-call
    /// branch of the capture, resumes the new front; the `true` result says
    /// that this transfer is due.
    pub fn schedule(&mut self) -> (switched: bool)
        requires
            old(self).wf(),
        ensures
            final(self).wf(),
            final(self).queue_ids() == rotate_ids(old(self).queue_ids()),
            old(self).queue().len() <= 1 ==> !switched && *final(self) == *old(self),
            old(self).queue().len() >= 2 ==> switched && {
                let n = old(self).queue().len() as int;
                &&& final(self).queue().len() == n
                &&& final(self).queue()[n - 1] == (Context {
                    state: ThreadState::Ready,
                    ..old(self).queue()[0]
                })
                &&& final(self).queue()[0] == (Context {
                    state: ThreadState::Running,
                    ..old(self).queue()[1]
                })
                &&& forall|i: int| 1 <= i < n - 1 ==> final(self).queue()[i] == old(self).queue()[i
                    + 1]
                &&& final(self).current() == old(self).queue()[1].id
                &&& final(self).id_view() == old(self).id_view()
                &&& final(self).has_main() == old(self).has_main()
                &&& final(self).timer_on() == old(self).timer_on()
                &&& final(self).main_continuation() == old(self).main_continuation()
                &&& final(self).pending_stack() == old(self).pending_stack()
            },
    {
        if self.contexts.len() <= 1 {
            return false;
        }
        let mut moved = self.contexts.remove(0);
        moved.state = ThreadState::Ready;
        self.contexts.push(moved);
        let mut front = self.contexts.remove(0);
        front.state = ThreadState::Running;
        self.current_id = front.id;
        self.contexts.insert(0, front);
        proof {
            let oq = old(self).queue_ids();
            let n = oq.len() as int;
            assert(self.queue_ids() =~= rotate_ids(oq));
            let rq = self.queue_ids();
            assert forall|i: int, j: int| 0 <= i < j < n implies rq[i] != rq[j] by {
                if j < n - 1 {
                    assert(oq[i + 1] != oq[j + 1]);
                } else {
                    assert(rq[j] == oq[0]);
                    assert(oq[0] != oq[i + 1]);
                }
            }
            assert(rq.no_duplicates());
            assert forall|x: u64| rq.to_set().contains(x) implies oq.to_set().contains(x) by {
                let k = choose|k: int| 0 <= k < rq.len() && rq[k] == x;
                if k < n - 1 {
                    assert(oq[k + 1] == x);
                } else {
                    assert(oq[0] == x);
                }
            }
            assert forall|x: u64| oq.to_set().contains(x) implies rq.to_set().contains(x) by {
                let k = choose|k: int| 0 <= k < oq.len() && oq[k] == x;
                if k == 0 {
                    assert(rq[n - 1] == x);
                } else {
                    assert(rq[k - 1] == x);
                }
            }
            assert(oq.to_set() =~= rq.to_set());
            assert(self.id_view() =~= self.queue_ids().to_set());
        }
        true
    }

    /// Terminate the current (front) context after its work has returned:
    /// it is removed from the queue, its id leaves the live-id set, and its
    /// stack is stashed for reclamation. If contexts remain, the new front
    /// is marked `Running` and recorded as current, and the trampoline must
    /// switch to it; otherwise the queue has drained, the timer is recorded
    /// as disabled, and the trampoline must resume the main continuation.
    ///
    /// From a well-formed state the result is never `NoMainSaved`: the
    /// invariant guarantees a main continuation exists while any context is
    /// queued, so the abort branch is provably unreachable. The main
    /// continuation is resumed at most once per run: it is demanded only
    /// when this call empties the queue, and a further call needs a queued
    /// context again.
    pub fn terminate_current(&mut self) -> (action: HandoffAction)
        requires
            old(self).wf(),
            old(self).queue().len() >= 1,
        ensures
            final(self).wf(),
            action != HandoffAction::NoMainSaved,
            final(self).id_view() == old(self).id_view().remove(old(self).queue()[0].id),
            final(self).pending_stack() == Some(
                (old(self).queue()[0].stack_base, old(self).queue()[0].stack_size),
            ),
            final(self).has_main() == old(self).has_main(),
            final(self).main_continuation() == old(self).main_continuation(),
            old(self).queue().len() >= 2 ==> action == HandoffAction::SwitchToNext && {
                let n = old(self).queue().len() as int;
                &&& final(self).queue().len() == n - 1
                &&& final(self).queue()[0] == (Context {
                    state: ThreadState::Running,
                    ..old(self).queue()[1]
                })
                &&& forall|i: int| 1 <= i < n - 1 ==> final(self).queue()[i] == old(self).queue()[i
                    + 1]
                &&& final(self).current() == old(self).queue()[1].id
                &&& final(self).timer_on() == old(self).timer_on()
            },
            old(self).queue().len() == 1 ==> action == HandoffAction::ResumeMain
                && final(self).queue().len() == 0
                && final(self).id_view() == Set::<u64>::empty()
                && !final(self).timer_on(),
    {
        let mut done = self.contexts.remove(0);
        done.state = ThreadState::Terminated;
        self.ids.remove(&done.id);
        self.unused_stack = Some((done.stack_base, done.stack_size));
        proof {
            let oq = old(self).queue_ids();
            assert(self.queue_ids() =~= oq.drop_first());
            let rq = self.queue_ids();
            assert(rq.no_duplicates());
            assert forall|x: u64| rq.to_set().contains(x) implies oq.to_set().remove(
                oq[0],
            ).contains(x) by {
                let k = choose|k: int| 0 <= k < rq.len() && rq[k] == x;
                assert(oq[k + 1] == x);
            }
            assert forall|x: u64| oq.to_set().remove(oq[0]).contains(x) implies rq.to_set()
                .contains(x) by {
                let k = choose|k: int| 0 <= k < oq.len() && oq[k] == x;
                assert(k != 0);
                assert(rq[k - 1] == x);
            }
            assert(self.id_view() =~= self.queue_ids().to_set());
        }
        if self.contexts.len() > 0 {
            let mut next = self.contexts.remove(0);
            next.state = ThreadState::Running;
            self.current_id = next.id;
            self.contexts.insert(0, next);
            proof {
                assert(self.queue_ids() =~= old(self).queue_ids().drop_first());
                assert(self.id_view() =~= self.queue_ids().to_set());
            }
            HandoffAction::SwitchToNext
        } else {
            if self.main_saved {
                self.timer_enabled = false;
                proof {
                    assert(self.queue_ids() =~= Seq::<u64>::empty());
                    assert(self.id_view() =~= Set::<u64>::empty());
                }
                HandoffAction::ResumeMain
            } else {
                proof {
                    assert(false);
                }
                HandoffAction::NoMainSaved
            }
        }
    }

    /// Tear a drained run down: the main continuation and the live-id set
    /// are cleared, the timer is recorded as disabled, and the stashed stack
    /// is dropped. Afterwards a new run may begin.
    pub fn finish_run(&mut self)
        requires
            old(self).wf(),
            old(self).queue().len() == 0,
        ensures
            final(self).wf(),
            !final(self).has_main(),
            !final(self).timer_on(),
            final(self).queue() == Seq::<Context>::empty(),
            final(self).id_view() == Set::<u64>::empty(),
            final(self).pending_stack() is None,
    {
        self.main_saved = false;
        self.timer_enabled = false;
        self.ids.clear();
        self.unused_stack = None;
        proof {
            assert(self.queue() =~= Seq::<Context>::empty());
            assert(self.queue_ids() =~= Seq::<u64>::empty());
            assert(self.id_view() =~= self.queue_ids().to_set());
        }
    }

    /// Hand the stack stashed by the last termination to the caller for
    /// reclamation, clearing the stash.
    pub fn take_unused_stack(&mut self) -> (r: Option<(usize, usize)>)
        requires
            old(self).wf(),
        ensures
            final(self).wf(),
            r == old(self).pending_stack(),
            final(self).pending_stack() is None,
            final(self).queue() == old(self).queue(),
            final(self).id_view() == old(self).id_view(),
            final(self).current() == old(self).current(),
            final(self).has_main() == old(self).has_main(),
            final(self).main_continuation() == old(self).main_continuation(),
            final(self).timer_on() == old(self).timer_on(),
    {
        let r = self.unused_stack;
        self.unused_stack = None;
        r
    }

    /// The continuation of the front context, for the transfer that resumes
    /// it.
    pub fn front_regs(&self) -> (r: Registers)
        requires
            self.queue().len() > 0,
        ensures
            r == self.queue()[0].regs,
    {
        self.contexts[0].regs
    }

    /// Store a captured continuation into the context at the back of the
    /// queue: right after a rotation, that is the context that was just
    /// suspended.
    pub fn install_back_regs(&mut self, regs: Registers)
        requires
            old(self).wf(),
            old(self).queue().len() > 0,
        ensures
            final(self).wf(),
            final(self).queue() == old(self).queue().update(
                old(self).queue().len() - 1,
                (Context { regs: regs, ..old(self).queue()[old(self).queue().len() - 1] }),
            ),
            final(self).id_view() == old(self).id_view(),
            final(self).current() == old(self).current(),
            final(self).has_main() == old(self).has_main(),
            final(self).main_continuation() == old(self).main_continuation(),
            final(self).timer_on() == old(self).timer_on(),
            final(self).pending_stack() == old(self).pending_stack(),
    {
        let mut c = self.contexts.pop().unwrap();
        c.regs = regs;
        self.contexts.push(c);
        proof {
            let n = old(self).queue().len() as int;
            assert(self.queue() =~= old(self).queue().update(
                n - 1,
                (Context { regs: regs, ..old(self).queue()[n - 1] }),
            ));
            assert(self.queue_ids() =~= old(self).queue_ids());
            assert(self.id_view() =~= self.queue_ids().to_set());
        }
    }

    /// How many contexts are queued.
    pub fn queue_len(&self) -> (n: usize)
        ensures
            n == self.queue().len(),
    {
        self.contexts.len()
    }

    /// The id recorded as currently executing.
    pub fn current_thread_id(&self) -> (id: u64)
        ensures
            id == self.current(),
    {
        self.current_id
    }

    /// Whether a run is active (the main continuation is saved).
    pub fn is_main_saved(&self) -> (b: bool)
        ensures
            b == self.has_main(),
    {
        self.main_saved
    }

    /// Whether the preemption timer is recorded as enabled.
    pub fn is_preemption_enabled(&self) -> (b: bool)
        ensures
            b == self.timer_on(),
    {
        self.timer_enabled
    }

    /// Identity and lifecycle state of the `i`-th queued context.
    pub fn thread_info(&self, i: usize) -> (info: ThreadInfo)
        requires
            i < self.queue().len(),
        ensures
            info.id == self.queue()[i as int].id,
            info.state == self.queue()[i as int].state,
    {
        let c = &self.contexts[i];
        ThreadInfo { id: c.id, state: c.state }
    }
}

/// Once the run queue has drained, no live id remains: with the invariant
/// tying the live-id set to the queued contexts, an empty queue forces an
/// empty id set, so teardown never leaks an id.
pub proof fn lemma_drained_run(rt: Runtime)
    requires
        rt.wf(),
        rt.queue().len() == 0,
    ensures
        rt.id_view() == Set::<u64>::empty(),
{
    assert(rt.queue_ids() =~= Seq::<u64>::empty());
    assert(rt.id_view() =~= Set::<u64>::empty());
}

} // verus!
