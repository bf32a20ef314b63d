//! An observable guarded value: a lock whose mutation is seen by a watcher as a
//! change notification.

use vstd::prelude::*;
use std::sync::atomic::{AtomicBool, AtomicU64, Ordering};
use std::sync::{Arc, Mutex, MutexGuard};
use futures::task::{AtomicTask, Task};
use crate::locks::{guarded, guarded_mut, lock_mutex, try_lock_mutex};
use crate::progress::Progress;

verus! {

/// The state of the stream that a watcher polls.
#[derive(Clone, Copy, PartialEq, Eq, Structural)]
pub enum StreamState {
    /// Nothing new since the last delivery.
    NotReady,
    /// The value changed, or was forced ready, since the last delivery.
    Ready,
    /// Every owner is gone: the stream has ended for good.
    Closed,
}

/// What one poll of the stream found.
#[derive(Clone, Copy, PartialEq, Eq, Structural)]
pub enum WatchStep {
    /// Nothing new.
    Pending,
    /// The current value is to be delivered.
    Deliver,
    /// End of stream.
    End,
}

/// The shared content of an observable value: the value and the stream state.
pub struct WatchCell<T> {
    pub value: T,
    pub state: StreamState,
}

/// Whether dropping an owner when `previous` owners were counted leaves none.
pub open spec fn last_owner_left(previous: nat) -> bool {
    previous == 1
}

impl<T> WatchCell<T> {
    pub open spec fn is_closed(self) -> bool {
        self.state == StreamState::Closed
    }

    /// After the stream was found to have no owner left.
    pub open spec fn closed(self) -> Self {
        WatchCell { state: StreamState::Closed, ..self }
    }

    /// After a change was signalled: `Ready`, unless the stream has ended.
    pub open spec fn marked(self) -> Self {
        if self.is_closed() { self } else { WatchCell { state: StreamState::Ready, ..self } }
    }

    /// After the value was replaced by `v` through a mutable access.
    pub open spec fn mutated(self, v: T) -> Self {
        WatchCell { value: v, ..self.marked() }
    }

    /// The cell as a watcher's poll sees it, given the owner count it read and
    /// whether readiness was forced since the last poll: forced readiness marks it,
    /// and a count of zero closes it.
    pub open spec fn seen(self, owners: u64, forced: bool) -> Self {
        let c = if forced { self.marked() } else { self };
        if owners == 0 { c.closed() } else { c }
    }

    /// What a poll finds in this state.
    pub open spec fn poll_result(self) -> WatchStep {
        match self.state {
            StreamState::NotReady => WatchStep::Pending,
            StreamState::Ready => WatchStep::Deliver,
            StreamState::Closed => WatchStep::End,
        }
    }

    /// The state after a poll: a delivery consumes the readiness.
    pub open spec fn polled(self) -> Self {
        if self.state == StreamState::Ready {
            WatchCell { state: StreamState::NotReady, ..self }
        } else {
            self
        }
    }

    /// The state after `n` polls.
    pub open spec fn polled_times(self, n: nat) -> Self
        decreases n,
    {
        if n == 0 { self } else { self.polled().polled_times((n - 1) as nat) }
    }

    /// A cell holding `value`, ready, so that the first poll delivers it.
    pub fn new(value: T) -> (r: Self)
        ensures
            r.value == value,
            r.state == StreamState::Ready,
    {
        WatchCell { value, state: StreamState::Ready }
    }

    /// Ends the stream: no owner is left.
    pub fn close(&mut self)
        ensures
            *final(self) == old(self).closed(),
    {
        self.state = StreamState::Closed;
    }

    /// Signals a change: the next poll delivers the value, unless the stream has ended.
    pub fn mark_ready(&mut self)
        ensures
            *final(self) == old(self).marked(),
    {
        if self.state != StreamState::Closed {
            self.state = StreamState::Ready;
        }
    }

    /// One poll: reports what it finds and consumes the readiness of a delivery.
    pub fn poll_step(&mut self) -> (r: WatchStep)
        ensures
            r == old(self).poll_result(),
            *final(self) == old(self).polled(),
    {
        match self.state {
            StreamState::NotReady => WatchStep::Pending,
            StreamState::Closed => WatchStep::End,
            StreamState::Ready => {
                self.state = StreamState::NotReady;
                WatchStep::Deliver
            },
        }
    }

    /// Read-only access to the value; the state does not change.
    pub fn value_ref(&self) -> (r: &T)
        ensures
            *r == self.value,
    {
        &self.value
    }

    /// Mutable access to the value: the cell is marked ready, and ends holding what
    /// the caller left behind the reference.
    pub fn value_mut(&mut self) -> (r: &mut T)
        ensures
            *r == old(self).value,
            *final(self) == old(self).mutated(*final(r)),
    {
        self.mark_ready();
        &mut self.value
    }
}

impl<T: Clone> WatchCell<T> {
    /// One poll, with what it yields: nothing new is `Pending`; a change yields a
    /// clone of the value and is consumed; a closed stream yields `None`.
    pub fn poll_progress(&mut self) -> (r: Progress<Option<T>>)
        ensures
            *final(self) == old(self).polled(),
            (r is Pending) <==> old(self).poll_result() == WatchStep::Pending,
            (r == Progress::<Option<T>>::Ready(None)) <==> old(self).poll_result() == WatchStep::End,
            old(self).poll_result() == WatchStep::Deliver ==> (r matches Progress::Ready(Some(v))
                && cloned(old(self).value, v)),
    {
        match self.poll_step() {
            WatchStep::Pending => Progress::Pending,
            WatchStep::End => Progress::Ready(None),
            WatchStep::Deliver => Progress::Ready(Some(self.value.clone())),
        }
    }
}

impl<T: Clone> WatchCell<T> {
    /// One poll by a watcher that read the owner count `owners` and found readiness
    /// forced or not: the cell is first brought to what the watcher sees (`seen`),
    /// then polled as by `poll_progress`.
    pub fn poll_found(&mut self, owners: u64, forced: bool) -> (r: Progress<Option<T>>)
        ensures
            *final(self) == old(self).seen(owners, forced).polled(),
            (r is Pending) <==> old(self).seen(owners, forced).poll_result() == WatchStep::Pending,
            (r == Progress::<Option<T>>::Ready(None)) <==> old(self).seen(owners, forced).poll_result()
                == WatchStep::End,
            old(self).seen(owners, forced).poll_result() == WatchStep::Deliver ==> (r matches Progress::Ready(
                Some(v),
            ) && cloned(old(self).value, v)),
    {
        if forced {
            self.mark_ready();
        }
        if owners == 0 {
            self.close();
        }
        self.poll_progress()
    }
}

/// Whether dropping an owner, when `previous` owners were counted, ends the stream.
pub fn is_last_owner(previous: u64) -> (r: bool)
    ensures
        r == last_owner_left(previous as nat),
    opens_invariants none
    no_unwind
{
    previous == 1
}

/// A mutable access followed by a poll delivers the value left by the access; a poll
/// after a delivery, with only read-only accesses in between, delivers nothing.
pub proof fn lemma_mutation_then_poll_delivers<T>(c: WatchCell<T>, v: T)
    requires
        !c.is_closed(),
    ensures
        c.mutated(v).poll_result() == WatchStep::Deliver,
        c.mutated(v).value == v,
        c.mutated(v).polled().poll_result() != WatchStep::Deliver,
        c.polled().poll_result() != WatchStep::Deliver,
{
}

/// Forcing readiness makes the next poll deliver the current value, with no mutation.
pub proof fn lemma_force_ready_delivers<T>(c: WatchCell<T>)
    requires
        !c.is_closed(),
    ensures
        c.marked().poll_result() == WatchStep::Deliver,
        c.marked().value == c.value,
{
}

/// A closed stream stays closed, and every poll of it reports end of stream.
pub proof fn lemma_closed_stays_closed<T>(c: WatchCell<T>, n: nat)
    requires
        c.is_closed(),
    ensures
        c.polled_times(n) == c,
        c.poll_result() == WatchStep::End,
        c.marked() == c,
    decreases n,
{
    if n > 0 {
        lemma_closed_stays_closed(c, (n - 1) as nat);
    }
}

/// With `n` owners, made from one by `n - 1` clones, the first `n - 1` drops find
/// `n`, `n - 1`, ..., 2 owners counted, and none of them leaves the stream without
/// an owner; the last drop finds 1 and does. Once the stream is closed every poll
/// reports end of stream.
pub proof fn lemma_last_owner_closes<T>(n: nat, c: WatchCell<T>, k: nat)
    requires
        1 <= n,
    ensures
        forall|p: nat| 2 <= p <= n ==> !#[trigger] last_owner_left(p),
        last_owner_left(1),
        c.closed().polled_times(k).poll_result() == WatchStep::End,
{
    lemma_closed_stays_closed(c.closed(), k);
}

/// A watched variable. It behaves like a mutex, except that the watchers obtained
/// from `get_watcher` see each mutable access as a change. Each clone is one more
/// owner; when the last owner goes away the watchers' stream ends.
#[verifier::reject_recursive_types(T)]
pub struct WatchedVariable<T> {
    task: Arc<AtomicTask>,
    content: Arc<Mutex<WatchCell<T>>>,
    owners: Arc<AtomicU64>,
    forced: Arc<AtomicBool>,
}

/// A non-owning subscriber of a watched variable: a stream of the variable's value,
/// which yields a clone of it after each change and ends when every owner is gone.
///
/// All watchers of one variable share its wake slot and its stream state: a change
/// is delivered to one poll only, and a wake reaches only the task registered last.
/// So at most one watcher of a variable should be polled at a time.
#[verifier::reject_recursive_types(T)]
pub struct VariableWatcher<T> {
    task: Arc<AtomicTask>,
    content: Arc<Mutex<WatchCell<T>>>,
    owners: Arc<AtomicU64>,
    forced: Arc<AtomicBool>,
}

/// Scoped access to a watched variable's value, under its lock. A mutable access
/// marks the value changed; going out of scope releases the lock and then wakes the
/// watcher's task.
#[verifier::reject_recursive_types(T)]
pub struct WatchedVariableAccessor<'a, T> {
    task: Arc<AtomicTask>,
    guard: Option<MutexGuard<'a, WatchCell<T>>>,
}

impl<T> WatchedVariable<T> {
    /// The lock over the shared cell.
    pub closed spec fn cell_lock(&self) -> Mutex<WatchCell<T>> {
        *self.content
    }

    /// The wake slot.
    pub closed spec fn slot(&self) -> AtomicTask {
        *self.task
    }

    /// The owner count.
    pub closed spec fn owner_count(&self) -> AtomicU64 {
        *self.owners
    }

    /// A watched variable holding `value`, with one owner. The first poll of a
    /// watcher delivers this value, unless it was changed first.
    pub fn from(value: T) -> Self {
        WatchedVariable {
            task: Arc::new(AtomicTask::new()),
            content: Arc::new(Mutex::new(WatchCell::new(value))),
            owners: Arc::new(AtomicU64::new(1)),
            forced: Arc::new(AtomicBool::new(false)),
        }
    }

    /// A watcher of this variable; it does not count as an owner.
    pub fn get_watcher(&self) -> (r: VariableWatcher<T>)
        ensures
            r.cell_lock() == self.cell_lock(),
            r.slot() == self.slot(),
            r.owner_count() == self.owner_count(),
    {
        VariableWatcher {
            task: Arc::clone(&self.task),
            content: Arc::clone(&self.content),
            owners: Arc::clone(&self.owners),
            forced: Arc::clone(&self.forced),
        }
    }

    /// Exclusive access to the value until the accessor goes out of scope.
    pub fn lock(&self) -> (r: WatchedVariableAccessor<'_, T>)
        ensures
            r.slot() == self.slot(),
            r.is_held(),
    {
        WatchedVariableAccessor {
            task: Arc::clone(&self.task),
            guard: Some(lock_mutex(&self.content)),
        }
    }

    /// Marks the value changed and wakes the watcher's task at once, with no
    /// mutation and without taking the lock: the watcher's next poll finds readiness
    /// forced (`WatchCell::seen`) and delivers the current value, unless the stream
    /// ended.
    pub fn force_ready(&self) {
        self.forced.store(true, Ordering::Release);
        self.task.notify();
    }

    /// Counts this owner out; the last one wakes the watcher, whose next poll then
    /// closes the stream.
    fn release_owner(&self) {
        let previous = self.owners.fetch_sub(1, Ordering::AcqRel);
        if is_last_owner(previous) {
            self.task.notify();
        }
    }
}

impl<T> Clone for WatchedVariable<T> {
    /// One more owner of the same variable.
    fn clone(&self) -> (r: Self)
        ensures
            r.cell_lock() == self.cell_lock(),
            r.slot() == self.slot(),
            r.owner_count() == self.owner_count(),
    {
        self.owners.fetch_add(1, Ordering::AcqRel);
        WatchedVariable {
            task: Arc::clone(&self.task),
            content: Arc::clone(&self.content),
            owners: Arc::clone(&self.owners),
            forced: Arc::clone(&self.forced),
        }
    }
}

impl<T> Drop for WatchedVariable<T> {
    /// Taken on trust: a drop may not unwind, and waking a task runs the executor's
    /// `Notify::notify`, which futures asks not to panic but does not promise it. The
    /// body is one call of the verified `release_owner`, which opens no invariant.
    #[verifier::external_body]
    fn drop(&mut self)
        opens_invariants none
        no_unwind
    {
        self.release_owner();
    }
}

impl<T> VariableWatcher<T> {
    /// The lock over the shared cell.
    pub closed spec fn cell_lock(&self) -> Mutex<WatchCell<T>> {
        *self.content
    }

    /// The wake slot.
    pub closed spec fn slot(&self) -> AtomicTask {
        *self.task
    }

    /// The owner count.
    pub closed spec fn owner_count(&self) -> AtomicU64 {
        *self.owners
    }
}

impl<T> Clone for VariableWatcher<T> {
    fn clone(&self) -> (r: Self)
        ensures
            r.cell_lock() == self.cell_lock(),
            r.slot() == self.slot(),
            r.owner_count() == self.owner_count(),
    {
        VariableWatcher {
            task: Arc::clone(&self.task),
            content: Arc::clone(&self.content),
            owners: Arc::clone(&self.owners),
            forced: Arc::clone(&self.forced),
        }
    }
}

impl<T: Clone> VariableWatcher<T> {
    /// One poll on behalf of `task`, which is registered first so that no later
    /// change goes unnoticed. It never waits: while an accessor holds the lock it
    /// reports `Pending`, and the accessor's release wakes the task. Otherwise it
    /// reports `Pending`, a clone of a changed value, or `None` at end of stream, on
    /// this poll and every later one. Also returns, when it took the lock, the cell
    /// found there, the owner count read, whether readiness was forced, and the cell
    /// left there.
    pub fn poll(&mut self, task: Task) -> (r: (Progress<Option<T>>, Ghost<Option<(WatchCell<T>, u64, bool, WatchCell<T>)>>))
        ensures
            r.1@ is None ==> r.0 is Pending,
            r.1@ matches Some((found, owners, forced, left)) ==> {
                &&& left == found.seen(owners, forced).polled()
                &&& (r.0 is Pending) <==> found.seen(owners, forced).poll_result() == WatchStep::Pending
                &&& (r.0 == Progress::<Option<T>>::Ready(None)) <==> found.seen(owners, forced).poll_result()
                    == WatchStep::End
                &&& found.seen(owners, forced).poll_result() == WatchStep::Deliver ==> (r.0 matches Progress::Ready(
                    Some(v),
                ) && cloned(found.value, v))
            },
            final(self).cell_lock() == old(self).cell_lock(),
            final(self).slot() == old(self).slot(),
            final(self).owner_count() == old(self).owner_count(),
    {
        self.task.register_task(task);
        match try_lock_mutex(&self.content) {
            None => (Progress::Pending, Ghost(None)),
            Some(mut guard) => {
                let cell = guarded_mut(&mut guard);
                let ghost found = *cell;
                let forced = self.forced.swap(false, Ordering::AcqRel);
                let owners = self.owners.load(Ordering::Acquire);
                let r = cell.poll_found(owners, forced);
                let ghost left = *cell;
                (r, Ghost(Some((found, owners, forced, left))))
            },
        }
    }
}

impl<'a, T> WatchedVariableAccessor<'a, T> {
    /// The wake slot.
    pub closed spec fn slot(&self) -> AtomicTask {
        *self.task
    }

    /// The accessor still holds the lock.
    pub closed spec fn is_held(&self) -> bool {
        self.guard is Some
    }

    /// Read-only access to the value, by `WatchCell::value_ref`: nothing changes.
    pub fn get(&self) -> &T
        requires
            self.is_held(),
    {
        match &self.guard {
            Some(g) => guarded(g).value_ref(),
            None => unreached(),
        }
    }

    /// Mutable access to the value, by `WatchCell::value_mut`: the cell is marked
    /// ready, and the watcher's next poll delivers what the caller leaves behind the
    /// reference.
    pub fn get_mut(&mut self) -> (r: &mut T)
        requires
            old(self).is_held(),
        ensures
            final(self).is_held(),
    {
        match &mut self.guard {
            Some(g) => guarded_mut(g).value_mut(),
            None => unreached(),
        }
    }

    /// Releases the lock, then wakes the watcher's task.
    fn release(&mut self) {
        {
            // the guard goes out of scope here, which releases the lock
            let _released = self.guard.take();
        }
        self.task.notify();
    }
}

impl<'a, T> Drop for WatchedVariableAccessor<'a, T> {
    /// Taken on trust, for Verus requires every drop to be `no_unwind` and releasing
    /// a std guard is a call it cannot see into. The body is one call of the verified
    /// `release`: it drops the guard, which releases the lock, and makes one
    /// `AtomicTask::notify`, which runs the executor's `Notify::notify`; futures asks
    /// that not to panic but allows it to: if it panics, this drop unwinds.
    #[verifier::external_body]
    fn drop(&mut self)
        opens_invariants none
        no_unwind
    {
        self.release();
    }
}

} // verus!
