//! A one-shot, irreversible shutdown signal.
//!
//! A latch starts out locked. The owning driver unlocks it exactly once to
//! request shutdown; a consumer task polls it and, while it is still locked,
//! leaves a wake handle behind so that the unlocking side can rouse it.
//! Only the most recently registered waiter is retained: registering a new
//! one silently discards any previous one (single-waiter semantics).
//!
//! This module holds the latch's state machine. The runtime wraps a value of
//! this type in a shared, lock-guarded cell and delivers the returned wake
//! handle to the scheduler.

use vstd::prelude::*;

verus! {

/// What a single poll of a latch reports.
#[derive(Clone, Copy, Debug, PartialEq, Eq, Structural)]
pub enum PollStatus {
    /// The latch has been unlocked; no further polling is needed.
    Ready,
    /// The latch is still locked; the poller's wake handle was registered.
    Pending,
}

/// A one-shot shutdown signal, generic over the wake handle `W` that a
/// suspended poller leaves behind.
pub struct Latch<W> {
    signalled: bool,
    waiter: Option<W>,
}

impl<W> Latch<W> {
    /// Whether the latch has been unlocked. Once true, it never reverts.
    pub closed spec fn signalled(self) -> bool {
        self.signalled
    }

    /// The wake handle of the most recently registered waiter, if any.
    pub closed spec fn waiter(self) -> Option<W> {
        self.waiter
    }

    /// The state transition performed by [`Latch::unlock`]: the latch
    /// becomes signalled, and the registered waiter (to be woken) leaves.
    pub closed spec fn spec_unlock(self) -> (Latch<W>, Option<W>) {
        (Latch { signalled: true, waiter: None }, self.waiter)
    }

    /// The state transition performed by [`Latch::poll`]: a signalled latch
    /// reports ready and is left untouched; a locked latch reports pending
    /// and retains `waker`, displacing any earlier waiter.
    pub closed spec fn spec_poll(self, waker: W) -> (Latch<W>, PollStatus) {
        if self.signalled {
            (self, PollStatus::Ready)
        } else {
            (Latch { signalled: false, waiter: Some(waker) }, PollStatus::Pending)
        }
    }

    /// Creates a new latch in the locked state, with no waiter registered.
    pub fn new() -> (latch: Latch<W>)
        ensures
            !latch.signalled(),
            latch.waiter() is None,
    {
        Latch { signalled: false, waiter: None }
    }

    /// Unlocks the latch. The transition is irreversible; the registered
    /// waiter, if any, is handed back so the caller can wake it, and the
    /// waiter slot is cleared so no later unlock can wake it again.
    pub fn unlock(&mut self) -> (woken: Option<W>)
        ensures
            (*final(self), woken) == old(self).spec_unlock(),
            final(self).signalled(),
            final(self).waiter() is None,
            woken == old(self).waiter(),
    {
        let mut taken: Option<W> = None;
        core::mem::swap(&mut taken, &mut self.waiter);
        self.signalled = true;
        taken
    }

    /// Polls the latch. Reports [`PollStatus::Ready`] exactly when the latch
    /// has been unlocked, leaving it untouched; otherwise registers `waker`
    /// (replacing any earlier waiter) and reports [`PollStatus::Pending`].
    pub fn poll(&mut self, waker: W) -> (status: PollStatus)
        ensures
            (*final(self), status) == old(self).spec_poll(waker),
            status == PollStatus::Ready <==> old(self).signalled(),
            final(self).signalled() == old(self).signalled(),
            old(self).signalled() ==> *final(self) == *old(self),
            !old(self).signalled() ==> final(self).waiter() == Some(waker),
    {
        if self.signalled {
            PollStatus::Ready
        } else {
            self.waiter = Some(waker);
            PollStatus::Pending
        }
    }

    /// The statuses reported by a sequence of polls, one per wake handle in
    /// `wakers`, each applied to the state the previous poll left behind.
    pub closed spec fn run_polls(self, wakers: Seq<W>) -> Seq<PollStatus>
        decreases wakers.len(),
    {
        if wakers.len() == 0 {
            Seq::empty()
        } else {
            seq![self.spec_poll(wakers[0]).1] + self.spec_poll(
                wakers[0],
            ).0.run_polls(wakers.drop_first())
        }
    }

    /// The waiters handed back by `count` consecutive unlocks, each applied
    /// to the state the previous unlock left behind.
    pub closed spec fn run_unlocks(self, count: nat) -> Seq<Option<W>>
        decreases count,
    {
        if count == 0 {
            Seq::empty()
        } else {
            seq![self.spec_unlock().1] + self.spec_unlock().0.run_unlocks((count - 1) as nat)
        }
    }
}

/// One operation on a latch: an unlock, or a poll leaving `waker` behind.
pub enum LatchOp<W> {
    Unlock,
    Poll { waker: W },
}

impl<W> Latch<W> {
    /// The latch after one operation.
    pub open spec fn spec_apply(self, op: LatchOp<W>) -> Latch<W> {
        match op {
            LatchOp::Unlock => self.spec_unlock().0,
            LatchOp::Poll { waker } => self.spec_poll(waker).0,
        }
    }

    /// Whether one operation delivers a wake notification: only an unlock
    /// does, and only when a waiter is registered.
    pub open spec fn spec_wakes(self, op: LatchOp<W>) -> bool {
        op matches LatchOp::Unlock && self.spec_unlock().1 is Some
    }

    /// How many wake notifications a sequence of operations delivers, each
    /// applied to the state the previous one left behind.
    pub open spec fn wakes_in_run(self, ops: Seq<LatchOp<W>>) -> nat
        decreases ops.len(),
    {
        if ops.len() == 0 {
            0
        } else {
            (if self.spec_wakes(ops[0]) {
                1nat
            } else {
                0nat
            }) + self.spec_apply(ops[0]).wakes_in_run(ops.drop_first())
        }
    }
}

/// A latch that has signalled and holds no waiter never wakes anyone
/// again, whatever is done to it.
proof fn lemma_settled_latch_never_wakes<W>(latch: Latch<W>, ops: Seq<LatchOp<W>>)
    requires
        latch.signalled(),
        latch.waiter() is None,
    ensures
        latch.wakes_in_run(ops) == 0,
    decreases ops.len(),
{
    if ops.len() > 0 {
        lemma_settled_latch_never_wakes(latch.spec_apply(ops[0]), ops.drop_first());
    }
}

/// Whatever sequence of polls and unlocks a latch goes through, at most
/// one wake notification is ever delivered: the first unlock takes the
/// registered waiter with it, and from then on nobody is registered to be
/// woken.
pub proof fn lemma_at_most_one_wake_ever<W>(latch: Latch<W>, ops: Seq<LatchOp<W>>)
    ensures
        latch.wakes_in_run(ops) <= 1,
    decreases ops.len(),
{
    if ops.len() > 0 {
        let next = latch.spec_apply(ops[0]);
        match ops[0] {
            LatchOp::Unlock => {
                lemma_settled_latch_never_wakes(next, ops.drop_first());
            },
            LatchOp::Poll { .. } => {
                lemma_at_most_one_wake_ever(next, ops.drop_first());
            },
        }
    }
}

/// A signalled latch reports ready to every poll, however many there are,
/// and none of those polls changes its state.
pub proof fn lemma_signalled_latch_polls_ready<W>(latch: Latch<W>, wakers: Seq<W>)
    requires
        latch.signalled(),
    ensures
        latch.run_polls(wakers).len() == wakers.len(),
        forall|i: int|
            0 <= i < wakers.len() ==> latch.run_polls(wakers)[i] == PollStatus::Ready,
    decreases wakers.len(),
{
    if wakers.len() > 0 {
        lemma_signalled_latch_polls_ready(latch, wakers.drop_first());
    }
}

/// Once a latch is unlocked, polling always reports ready, no matter how
/// many times it is polled or whether a waiter was registered beforehand.
pub proof fn lemma_polls_after_unlock_report_ready<W>(latch: Latch<W>, wakers: Seq<W>)
    ensures
        latch.spec_unlock().0.run_polls(wakers).len() == wakers.len(),
        forall|i: int|
            0 <= i < wakers.len() ==> latch.spec_unlock().0.run_polls(wakers)[i]
                == PollStatus::Ready,
{
    lemma_signalled_latch_polls_ready(latch.spec_unlock().0, wakers);
}

/// Unlocking a latch any number of times wakes at most one waiter: the
/// first unlock hands back whichever waiter was registered, and every later
/// unlock hands back none.
pub proof fn lemma_repeated_unlocks_wake_at_most_once<W>(latch: Latch<W>, count: nat)
    ensures
        latch.run_unlocks(count).len() == count,
        count > 0 ==> latch.run_unlocks(count)[0] == latch.waiter(),
        forall|i: int| 1 <= i < count ==> latch.run_unlocks(count)[i] is None,
    decreases count,
{
    if count > 0 {
        let after = latch.spec_unlock().0;
        lemma_repeated_unlocks_wake_at_most_once(after, (count - 1) as nat);
        assert forall|i: int| 1 <= i < count implies latch.run_unlocks(count)[i] is None by {
            assert(latch.run_unlocks(count)[i] == after.run_unlocks((count - 1) as nat)[i - 1]);
        }
    }
}

} // verus!
