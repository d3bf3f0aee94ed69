//! The focus lock: the mutual-exclusion primitive that one session and all
//! of its tabs share, admitting exactly one focus-dependent operation at a
//! time.
//!
//! The executable [`TaskManager`] is the lock's state; acquisition is the
//! test-and-set step `try_lock`, release is `unlock`. An unverified shell
//! that lets callers wait for the lock repeats `try_lock` under its own
//! wake mechanism; the decisions themselves stand here with contracts.
//!
//! The spec-level [`LockSystem`] models any number of concurrent callers
//! taking that same step, and the lemmas below prove mutual exclusion: in
//! every state reachable from an initial one, no two callers are inside
//! their critical sections at once.
use vstd::prelude::*;

verus! {

/// The lock. Holds nothing but whether some focus-dependent operation is
/// currently in flight; it purely brackets a critical section.
pub struct TaskManager {
    locked: bool,
}

impl TaskManager {
    /// Whether the lock is currently held.
    pub closed spec fn held(&self) -> bool {
        self.locked
    }

    /// Creates the lock, free.
    pub fn new() -> (r: Self)
        ensures
            !r.held(),
    {
        TaskManager { locked: false }
    }

    /// The atomic acquisition step: observes the lock and, exactly when it
    /// was free, takes it. No two callers can both observe "free": whoever
    /// runs first leaves the lock held for the other.
    pub fn try_lock(&mut self) -> (acquired: bool)
        ensures
            acquired == !old(self).held(),
            final(self).held(),
    {
        if self.locked {
            false
        } else {
            self.locked = true;
            true
        }
    }

    /// Acquires the free lock. A caller that may find the lock held calls
    /// `try_lock` and waits before trying again.
    pub fn lock(&mut self)
        requires
            !old(self).held(),
        ensures
            final(self).held(),
    {
        self.locked = true;
    }

    /// Releases the lock; on an already-free lock this is a no-op.
    pub fn unlock(&mut self)
        ensures
            !final(self).held(),
    {
        self.locked = false;
    }
}

/// Where one caller stands with respect to the lock.
pub enum Phase {
    /// Not interested in the lock.
    Idle,
    /// Wants the lock but has not acquired it.
    Waiting,
    /// Holds the lock: inside its (activate, act) critical section.
    Critical,
}

/// A lock shared by any number of concurrent callers: the lock's state plus
/// each caller's phase.
pub struct LockSystem {
    /// Whether the lock is held.
    pub held: bool,
    /// The phase of each caller.
    pub callers: Seq<Phase>,
}

impl LockSystem {
    /// An initial state: the lock free, no caller in its critical section.
    pub open spec fn init(self) -> bool {
        &&& !self.held
        &&& forall|i: int| 0 <= i < self.callers.len() ==> !(#[trigger] self.callers[i]
            is Critical)
    }

    /// Caller `i` starts wanting the lock.
    pub open spec fn start_step(self, post: LockSystem, i: int) -> bool {
        &&& 0 <= i < self.callers.len()
        &&& self.callers[i] is Idle
        &&& post.callers == self.callers.update(i, Phase::Waiting)
        &&& post.held == self.held
    }

    /// Caller `i` runs the acquisition step and finds the lock free: it
    /// enters its critical section and the lock becomes held, atomically.
    /// A caller that finds the lock held stays waiting (no state change).
    pub open spec fn acquire_step(self, post: LockSystem, i: int) -> bool {
        &&& 0 <= i < self.callers.len()
        &&& self.callers[i] is Waiting
        &&& !self.held
        &&& post.callers == self.callers.update(i, Phase::Critical)
        &&& post.held
    }

    /// Caller `i` leaves its critical section and releases the lock.
    pub open spec fn release_step(self, post: LockSystem, i: int) -> bool {
        &&& 0 <= i < self.callers.len()
        &&& self.callers[i] is Critical
        &&& post.callers == self.callers.update(i, Phase::Idle)
        &&& !post.held
    }

    /// Any one caller takes any one step.
    pub open spec fn next(self, post: LockSystem) -> bool {
        exists|i: int|
            {
                ||| #[trigger] self.start_step(post, i)
                ||| self.acquire_step(post, i)
                ||| self.release_step(post, i)
            }
    }

    /// The inductive invariant: a caller is in its critical section only
    /// while the lock is held, and no two callers are in theirs at once.
    pub open spec fn inv(self) -> bool {
        &&& forall|i: int|
            0 <= i < self.callers.len() && (#[trigger] self.callers[i]) is Critical
                ==> self.held
        &&& forall|i: int, j: int|
            0 <= i < self.callers.len() && 0 <= j < self.callers.len()
                && (#[trigger] self.callers[i]) is Critical
                && (#[trigger] self.callers[j]) is Critical ==> i == j
    }
}

/// The executable acquisition refines the model's acquire step: a waiting
/// caller whose `try_lock` came back true — which its contract ties to the
/// lock having been free, and which leaves the lock held — has taken
/// exactly the step `acquire_step` describes, so the mutual-exclusion
/// lemmas below speak of every interleaving of `try_lock` and `unlock`.
pub proof fn lemma_try_lock_refines_acquire(s: LockSystem, i: int, acquired: bool)
    requires
        0 <= i < s.callers.len(),
        s.callers[i] is Waiting,
        acquired == !s.held,
        acquired,
    ensures
        s.acquire_step(
            LockSystem { held: true, callers: s.callers.update(i, Phase::Critical) },
            i,
        ),
{
}

/// An initial state satisfies the invariant.
pub proof fn lemma_init_inv(s: LockSystem)
    requires
        s.init(),
    ensures
        s.inv(),
{
}

/// Every step preserves the invariant.
pub proof fn lemma_next_preserves_inv(pre: LockSystem, post: LockSystem)
    requires
        pre.inv(),
        pre.next(post),
    ensures
        post.inv(),
{
    let i = choose|i: int|
        {
            ||| #[trigger] pre.start_step(post, i)
            ||| pre.acquire_step(post, i)
            ||| pre.release_step(post, i)
        };
    if pre.acquire_step(post, i) {
        assert(forall|k: int|
            0 <= k < pre.callers.len() && (#[trigger] pre.callers[k]) is Critical ==> false);
    }
}

/// Mutual exclusion along any finite execution: in each state of a trace
/// that starts initial and moves by steps, at most one caller is inside its
/// critical section.
pub proof fn lemma_trace_mutual_exclusion(trace: Seq<LockSystem>, k: int, i: int, j: int)
    requires
        trace.len() > 0,
        trace[0].init(),
        forall|n: int| 0 <= n < trace.len() - 1 ==> #[trigger] trace[n].next(trace[n + 1]),
        0 <= k < trace.len(),
        0 <= i < trace[k].callers.len(),
        0 <= j < trace[k].callers.len(),
        trace[k].callers[i] is Critical,
        trace[k].callers[j] is Critical,
    ensures
        i == j,
{
    lemma_trace_inv(trace, k);
}

/// The invariant holds in each state of such a trace.
pub proof fn lemma_trace_inv(trace: Seq<LockSystem>, k: int)
    requires
        trace.len() > 0,
        trace[0].init(),
        forall|n: int| 0 <= n < trace.len() - 1 ==> #[trigger] trace[n].next(trace[n + 1]),
        0 <= k < trace.len(),
    ensures
        trace[k].inv(),
    decreases k,
{
    if k == 0 {
        lemma_init_inv(trace[0]);
    } else {
        lemma_trace_inv(trace, k - 1);
        assert(trace[k - 1].next(trace[k - 1 + 1]));
        lemma_next_preserves_inv(trace[k - 1], trace[k]);
    }
}

} // verus!
