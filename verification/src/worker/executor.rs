//! Passing a run's progress on to the worker state.

use vstd::prelude::*;
use crate::worker::messages::StatusUpdate;

verus! {

/// What reaches the worker state of a polled update: everything except
/// `NoUpdate`, which only means that nothing was ready.
pub fn forward_update(msg: StatusUpdate) -> (r: Option<StatusUpdate>)
    ensures
        msg is NoUpdate ==> r is None,
        !(msg is NoUpdate) ==> r == Some(msg),
{
    match msg {
        StatusUpdate::NoUpdate => None,
        _ => Some(msg),
    }
}

} // verus!
