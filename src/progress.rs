//! The three-way answer of a non-blocking poll.

use vstd::prelude::*;

verus! {

/// What a poll reports when it does not fail: nothing yet, or a result.
pub enum Progress<T> {
    /// Not ready: the polling task is registered and will be woken.
    Pending,
    /// Ready, with its result.
    Ready(T),
}

} // verus!
