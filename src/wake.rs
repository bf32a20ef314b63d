//! The single-slot wake registration shared by both primitives.
//!
//! The slot is futures' `AtomicTask`: the last registration wins and a
//! notification with nothing registered does nothing. Neither fact changes any
//! value that the library's contracts speak of, so the slot's operations carry
//! no `ensures`.

use vstd::prelude::*;

verus! {

/// A handle on a task, as futures hands it out to code that runs inside one.
#[verifier::external_type_specification]
#[verifier::external_body]
pub struct ExTask(futures::task::Task);

/// futures' single-slot wake registration.
#[verifier::external_type_specification]
#[verifier::external_body]
pub struct ExAtomicTask(futures::task::AtomicTask);

/// Relies on `AtomicTask::new`: an empty slot.
pub assume_specification[ futures::task::AtomicTask::new ]() -> futures::task::AtomicTask;

/// Relies on `AtomicTask::register_task`: arranges for `task` to be woken by the
/// next `notify`, in place of any task registered before. A registration made while
/// a `notify` runs wakes `task` at once; one that races another registration may be
/// dropped. Unlike `AtomicTask::register`, it needs no running task.
pub assume_specification[ futures::task::AtomicTask::register_task ](
    slot: &futures::task::AtomicTask,
    task: futures::task::Task,
);

/// Relies on `AtomicTask::notify`: wakes the task last registered, if any.
/// It opens no invariant of this crate.
pub assume_specification[ futures::task::AtomicTask::notify ](slot: &futures::task::AtomicTask)
    opens_invariants none;

} // verus!
