//! The answer of an operation that may have to wait.

use vstd::prelude::*;

verus! {

/// Either the operation is through, with its result, or it could not go on:
/// the caller has arranged to be woken and polls again then.
pub enum Progress<T> {
    Ready(T),
    Pending,
}

} // verus!
