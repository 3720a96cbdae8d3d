//! The cancellation flag that a batch reads between its steps.

use vstd::prelude::*;

verus! {

/// The state that a running batch shares with whoever may cancel it.
#[derive(Debug)]
pub struct AppState {
    pub cancel: bool,
}

impl Default for AppState {
    /// No cancellation is pending.
    fn default() -> (state: AppState)
        ensures
            !state.cancel,
    {
        AppState { cancel: false }
    }
}

/// Whether cancellation is pending.
pub fn is_cancel(state: &AppState) -> (cancelled: bool)
    ensures
        cancelled == state.cancel,
{
    state.cancel
}

/// Sets or clears the flag.
pub fn set_status(state: &mut AppState, is_cancel: bool)
    ensures
        final(state).cancel == is_cancel,
{
    state.cancel = is_cancel;
}

/// Asks the running batch to stop.
pub fn cancel_process(state: &mut AppState)
    ensures
        final(state).cancel,
{
    set_status(state, true);
}

} // verus!
