//! A single-assignment future: a `Promise` is resolved or rejected once, and its
//! `PromiseHandle` observes the outcome.

use vstd::prelude::*;
use std::sync::atomic::{AtomicBool, Ordering};
use std::sync::Arc;
use vstd::rwlock::{RwLock, RwLockPredicate};
use futures::task::{AtomicTask, Task};
use crate::progress::Progress;

verus! {

/// What a promise has come to.
pub enum PromiseState<T> {
    /// Neither resolved nor rejected yet: the only state that can change.
    NotReady,
    /// Resolved; the value stays here until a poll takes it out.
    Resolved(Option<T>),
    /// Rejected, with its reason.
    Rejected(String),
}

/// The mathematical model of a `PromiseState`: the reason is its text.
pub enum PromiseModel<T> {
    NotReady,
    Resolved(Option<T>),
    Rejected(Seq<char>),
}

/// What one poll of a handle reports, in the terms of the model.
pub enum Outcome<T> {
    Pending,
    Value(T),
    Rejected(Seq<char>),
    Consumed,
}

/// `resolve` or `reject` was called on a promise that had already finished.
pub enum FinishError {
    AlreadyFinished,
}

/// Why a poll of a promise handle failed.
pub enum PollError {
    /// The promise was rejected with this reason.
    Rejected(String),
    /// The resolved value was already taken out by an earlier poll.
    ValueConsumed,
}

/// The reason given to a promise whose sender went away before it finished.
pub open spec fn abandoned_reason() -> Seq<char> {
    "Promise Dropped"@
}

impl<T> View for PromiseState<T> {
    type V = PromiseModel<T>;

    open spec fn view(&self) -> PromiseModel<T> {
        match self {
            PromiseState::NotReady => PromiseModel::NotReady,
            PromiseState::Resolved(v) => PromiseModel::Resolved(*v),
            PromiseState::Rejected(r) => PromiseModel::Rejected(r@),
        }
    }
}

impl<T> PromiseModel<T> {
    /// Whether the promise has left `NotReady`; it never goes back.
    pub open spec fn is_finished(self) -> bool {
        !(self is NotReady)
    }

    /// After `resolve(v)`: only a promise that has not finished takes the value.
    pub open spec fn resolved_with(self, v: T) -> Self {
        if self is NotReady { PromiseModel::Resolved(Some(v)) } else { self }
    }

    /// After `reject(r)`: only a promise that has not finished takes the reason.
    pub open spec fn rejected_with(self, r: Seq<char>) -> Self {
        if self is NotReady { PromiseModel::Rejected(r) } else { self }
    }

    /// After the sender went away.
    pub open spec fn abandoned(self) -> Self {
        self.rejected_with(abandoned_reason())
    }

    /// The state as a handle's poll sees it, with the sender gone or not.
    pub open spec fn seen(self, sender_gone: bool) -> Self {
        if sender_gone { self.abandoned() } else { self }
    }

    /// What a poll of the handle reports in this state.
    pub open spec fn outcome(self) -> Outcome<T> {
        match self {
            PromiseModel::NotReady => Outcome::Pending,
            PromiseModel::Resolved(Some(v)) => Outcome::Value(v),
            PromiseModel::Resolved(None) => Outcome::Consumed,
            PromiseModel::Rejected(r) => Outcome::Rejected(r),
        }
    }

    /// The state after a poll of the handle: a resolved value is taken out.
    pub open spec fn polled(self) -> Self {
        match self {
            PromiseModel::Resolved(Some(_)) => PromiseModel::Resolved(None),
            _ => self,
        }
    }

    /// The state after `n` polls.
    pub open spec fn polled_times(self, n: nat) -> Self
        decreases n,
    {
        if n == 0 { self } else { self.polled().polled_times((n - 1) as nat) }
    }
}

/// Polls before a promise finishes report `Pending` and change nothing.
pub proof fn lemma_polls_before_finish_change_nothing<T>(s: PromiseModel<T>, n: nat)
    requires
        s is NotReady,
    ensures
        s.polled_times(n) == s,
        s.outcome() == Outcome::<T>::Pending,
    decreases n,
{
    if n > 0 {
        lemma_polls_before_finish_change_nothing(s, (n - 1) as nat);
    }
}

/// Once a resolved value has been taken, every later poll reports `Consumed`.
pub proof fn lemma_consumed_stays_consumed<T>(n: nat)
    ensures
        PromiseModel::<T>::Resolved(None).polled_times(n) == PromiseModel::<T>::Resolved(None),
        PromiseModel::<T>::Resolved(None).outcome() == Outcome::<T>::Consumed,
    decreases n,
{
    if n > 0 {
        lemma_consumed_stays_consumed::<T>((n - 1) as nat);
    }
}

/// Resolving a promise with `v`, then polling its handle, yields `v` exactly once:
/// the first poll reports the value, and every poll after it reports `Consumed`.
pub proof fn lemma_resolved_value_taken_once<T>(s: PromiseModel<T>, v: T, n: nat)
    requires
        s is NotReady,
    ensures
        s.resolved_with(v).outcome() == Outcome::Value(v),
        s.resolved_with(v).polled().polled_times(n).outcome() == Outcome::<T>::Consumed,
{
    lemma_consumed_stays_consumed::<T>(n);
}

/// A rejected promise reports its reason on every poll.
pub proof fn lemma_rejection_stays<T>(r: Seq<char>, n: nat)
    ensures
        PromiseModel::<T>::Rejected(r).polled_times(n) == PromiseModel::<T>::Rejected(r),
    decreases n,
{
    if n > 0 {
        lemma_rejection_stays::<T>(r, (n - 1) as nat);
    }
}

/// When the sender goes away before the promise finished, the handle's next poll,
/// and every one after it, reports rejection with the abandonment reason.
pub proof fn lemma_abandoned_promise_rejects<T>(s: PromiseModel<T>, n: nat)
    requires
        s is NotReady,
    ensures
        s.abandoned().polled_times(n).outcome() == Outcome::<T>::Rejected(abandoned_reason()),
{
    lemma_rejection_stays::<T>(abandoned_reason(), n);
}

/// The model of what a poll of a handle returned.
pub open spec fn outcome_of<T>(r: Result<Progress<T>, PollError>) -> Outcome<T> {
    match r {
        Ok(Progress::Pending) => Outcome::Pending,
        Ok(Progress::Ready(v)) => Outcome::Value(v),
        Err(PollError::Rejected(s)) => Outcome::Rejected(s@),
        Err(PollError::ValueConsumed) => Outcome::Consumed,
    }
}

impl<T> PromiseState<T> {
    /// Stores `value` if the promise has not finished; fails otherwise and changes nothing.
    pub fn resolve(&mut self, value: T) -> (r: Result<(), FinishError>)
        ensures
            final(self)@ == old(self)@.resolved_with(value),
            r is Ok <==> !old(self)@.is_finished(),
    {
        match self {
            PromiseState::NotReady => {
                *self = PromiseState::Resolved(Some(value));
                Ok(())
            },
            _ => Err(FinishError::AlreadyFinished),
        }
    }

    /// Records the rejection `reason` if the promise has not finished; fails otherwise
    /// and changes nothing.
    pub fn reject(&mut self, reason: String) -> (r: Result<(), FinishError>)
        ensures
            final(self)@ == old(self)@.rejected_with(reason@),
            r is Ok <==> !old(self)@.is_finished(),
    {
        match self {
            PromiseState::NotReady => {
                *self = PromiseState::Rejected(reason);
                Ok(())
            },
            _ => Err(FinishError::AlreadyFinished),
        }
    }

    /// Rejects with the abandonment reason a promise that has not finished; returns
    /// whether it did.
    pub fn abandon(&mut self) -> (r: bool)
        ensures
            final(self)@ == old(self)@.abandoned(),
            r == !old(self)@.is_finished(),
    {
        match self {
            PromiseState::NotReady => {
                *self = PromiseState::Rejected("Promise Dropped".to_owned());
                true
            },
            _ => false,
        }
    }

    /// A promise that has not finished.
    pub fn new() -> (r: Self)
        ensures
            r@ == PromiseModel::<T>::NotReady,
    {
        PromiseState::NotReady
    }

    /// One poll by a handle that found the sender gone or not: a promise whose sender
    /// is gone is first abandoned, then polled.
    pub fn poll_found(&mut self, sender_gone: bool) -> (r: Result<Progress<T>, PollError>)
        ensures
            outcome_of(r) == old(self)@.seen(sender_gone).outcome(),
            final(self)@ == old(self)@.seen(sender_gone).polled(),
    {
        if sender_gone {
            self.abandon();
        }
        self.poll()
    }

    /// One poll: reports the outcome of the current state and takes a resolved value out.
    pub fn poll(&mut self) -> (r: Result<Progress<T>, PollError>)
        ensures
            outcome_of(r) == old(self)@.outcome(),
            final(self)@ == old(self)@.polled(),
    {
        match self {
            PromiseState::NotReady => Ok(Progress::Pending),
            PromiseState::Rejected(reason) => Err(PollError::Rejected(reason.clone())),
            PromiseState::Resolved(slot) => match slot.take() {
                Some(v) => Ok(Progress::Ready(v)),
                None => Err(PollError::ValueConsumed),
            },
        }
    }
}

/// The predicate of the lock over a promise's state: every state may stand in it.
pub struct AnyState;

impl<T> RwLockPredicate<PromiseState<T>> for AnyState {
    open spec fn inv(self, s: PromiseState<T>) -> bool {
        true
    }
}

/// The lock over a promise's state.
type StateLock<T> = RwLock<PromiseState<T>, AnyState>;

/// The "sender" side of a promise. Dropping it before it finished rejects the promise
/// with the abandonment reason.
#[verifier::reject_recursive_types(T)]
pub struct Promise<T> {
    state: Arc<StateLock<T>>,
    task: Arc<AtomicTask>,
    sender_gone: Arc<AtomicBool>,
    settled: AtomicBool,
}

/// The "receiver" side of a promise: polled until it reports the outcome.
#[verifier::reject_recursive_types(T)]
pub struct PromiseHandle<T> {
    state: Arc<StateLock<T>>,
    task: Arc<AtomicTask>,
    sender_gone: Arc<AtomicBool>,
}

impl<T> Promise<T> {
    /// The lock over the shared state.
    pub closed spec fn state_lock(&self) -> StateLock<T> {
        *self.state
    }

    /// The flag that the sender sets when it goes away.
    pub closed spec fn gone_flag(&self) -> AtomicBool {
        *self.sender_gone
    }

    /// The wake slot.
    pub closed spec fn slot(&self) -> AtomicTask {
        *self.task
    }

    /// A promise that has not finished, with nobody registered to be woken.
    pub fn new() -> (r: Self)
        ensures
            r.state_lock().pred() == AnyState,
    {
        let lock = RwLock::new(PromiseState::new(), Ghost(AnyState));
        Promise {
            state: Arc::new(lock),
            task: Arc::new(AtomicTask::new()),
            sender_gone: Arc::new(AtomicBool::new(false)),
            settled: AtomicBool::new(false),
        }
    }

    /// Resolves the promise with `value` and wakes the handle's task; fails with
    /// `AlreadyFinished`, changing nothing, if the promise has finished. Also returns
    /// the state found under the lock and the state left there.
    pub fn resolve(&self, value: T) -> (r: (Result<(), FinishError>, Ghost<(PromiseModel<T>, PromiseModel<T>)>))
        ensures
            r.0 is Ok <==> !r.1@.0.is_finished(),
            r.1@.1 == r.1@.0.resolved_with(value),
    {
        let (mut st, guard) = self.state.acquire_write();
        let ghost found = st@;
        let r = st.resolve(value);
        let ghost left = st@;
        guard.release_write(st);
        if r.is_ok() {
            self.settled.store(true, Ordering::Release);
            self.task.notify();
        }
        (r, Ghost((found, left)))
    }

    /// Rejects the promise with `reason` and wakes the handle's task; fails with
    /// `AlreadyFinished`, changing nothing, if the promise has finished. Also returns
    /// the state found under the lock and the state left there.
    pub fn reject(&self, reason: String) -> (r: (Result<(), FinishError>, Ghost<(PromiseModel<T>, PromiseModel<T>)>))
        ensures
            r.0 is Ok <==> !r.1@.0.is_finished(),
            r.1@.1 == r.1@.0.rejected_with(reason@),
    {
        let (mut st, guard) = self.state.acquire_write();
        let ghost found = st@;
        let r = st.reject(reason);
        let ghost left = st@;
        guard.release_write(st);
        if r.is_ok() {
            self.settled.store(true, Ordering::Release);
            self.task.notify();
        }
        (r, Ghost((found, left)))
    }

    /// A handle that observes this promise.
    pub fn get_handle(&self) -> (r: PromiseHandle<T>)
        ensures
            r.state_lock() == self.state_lock(),
            r.slot() == self.slot(),
            r.gone_flag() == self.gone_flag(),
    {
        PromiseHandle {
            state: Arc::clone(&self.state),
            task: Arc::clone(&self.task),
            sender_gone: Arc::clone(&self.sender_gone),
        }
    }

    /// Records that the sender is gone and, if the promise has not finished, wakes
    /// the handle's task; the handle's next poll then rejects the promise
    /// (`PromiseState::poll_found`).
    fn leave(&self) {
        self.sender_gone.store(true, Ordering::Release);
        if !self.settled.load(Ordering::Acquire) {
            self.task.notify();
        }
    }
}

impl<T> Drop for Promise<T> {
    /// Taken on trust, for Verus requires every drop to be `no_unwind`. The body is one
    /// call of the verified `leave`, which takes no lock: std atomic operations and at
    /// most one `AtomicTask::notify`. None of them touches an invariant of this crate,
    /// though vstd's specification of std atomics does not say so. `notify` runs the
    /// executor's `Notify::notify`, which futures asks not to panic but allows to:
    /// if it panics, this drop unwinds.
    #[verifier::external_body]
    fn drop(&mut self)
        opens_invariants none
        no_unwind
    {
        self.leave();
    }
}

impl<T> Clone for PromiseHandle<T> {
    fn clone(&self) -> (r: Self)
        ensures
            r.state_lock() == self.state_lock(),
            r.slot() == self.slot(),
            r.gone_flag() == self.gone_flag(),
    {
        PromiseHandle {
            state: Arc::clone(&self.state),
            task: Arc::clone(&self.task),
            sender_gone: Arc::clone(&self.sender_gone),
        }
    }
}

impl<T> PromiseHandle<T> {
    /// The lock over the shared state.
    pub closed spec fn state_lock(&self) -> StateLock<T> {
        *self.state
    }

    /// The flag that the sender sets when it goes away.
    pub closed spec fn gone_flag(&self) -> AtomicBool {
        *self.sender_gone
    }

    /// The wake slot.
    pub closed spec fn slot(&self) -> AtomicTask {
        *self.task
    }

    /// One poll on behalf of `task`, which is registered first so that no later
    /// resolution, rejection or abandonment goes unnoticed. If the sender is gone,
    /// the state is first abandoned. It reports `Pending`, the resolved value (taken
    /// out), the rejection, or `ValueConsumed`. Also returns the state found under
    /// the lock, whether the sender was found gone, and the state left there.
    pub fn poll(&mut self, task: Task) -> (r: (Result<Progress<T>, PollError>, Ghost<(PromiseModel<T>, bool, PromiseModel<T>)>))
        ensures
            outcome_of(r.0) == r.1@.0.seen(r.1@.1).outcome(),
            r.1@.2 == r.1@.0.seen(r.1@.1).polled(),
            final(self).state_lock() == old(self).state_lock(),
            final(self).slot() == old(self).slot(),
            final(self).gone_flag() == old(self).gone_flag(),
    {
        self.task.register_task(task);
        let (mut st, guard) = self.state.acquire_write();
        let ghost found = st@;
        let gone = self.sender_gone.load(Ordering::Acquire);
        let r = st.poll_found(gone);
        let ghost left = st@;
        guard.release_write(st);
        (r, Ghost((found, gone, left)))
    }
}

} // verus!
