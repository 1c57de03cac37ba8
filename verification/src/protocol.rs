//! The two-phase call protocol of a binding: a call that returned must be
//! finalized before the same binding is called again.

use vstd::prelude::*;
use crate::error::CallError;

verus! {

/// Where a binding stands in the protocol.
#[derive(Clone, Copy, Debug, PartialEq, Eq, Structural)]
pub enum CallState {
    /// No call is outstanding: the binding may be called.
    Ready,
    /// A call has returned and its results have not been released yet.
    AwaitingFinalize,
}

impl CallState {
    /// The error with which a call in this state is refused, if it is.
    pub open spec fn call_refusal(self) -> Option<CallError> {
        match self {
            CallState::Ready => None,
            CallState::AwaitingFinalize => Some(CallError::FinalizeRequired),
        }
    }

    /// The state that follows a call made in this state; `returned` says
    /// whether the component handed results back.
    pub open spec fn after_call(self, returned: bool) -> CallState {
        if self == CallState::Ready && returned {
            CallState::AwaitingFinalize
        } else {
            self
        }
    }

    /// The error with which a finalization in this state is refused, if it is.
    pub open spec fn finalize_refusal(self) -> Option<CallError> {
        match self {
            CallState::Ready => Some(CallError::NothingToFinalize),
            CallState::AwaitingFinalize => None,
        }
    }

    /// The state that follows a finalization attempted in this state. The
    /// results are released whether or not the component's cleanup faults.
    pub open spec fn after_finalize(self) -> CallState {
        CallState::Ready
    }

    /// The state in which every binding is created.
    pub fn initial() -> (state: CallState)
        ensures
            state == CallState::Ready,
    {
        CallState::Ready
    }

    /// Decides whether a call may go ahead in this state.
    pub fn admit_call(self) -> (verdict: Result<(), CallError>)
        ensures
            verdict == (match self.call_refusal() {
                Some(e) => Err::<(), CallError>(e),
                None => Ok::<(), CallError>(()),
            }),
    {
        match self {
            CallState::Ready => Ok(()),
            CallState::AwaitingFinalize => Err(CallError::FinalizeRequired),
        }
    }

    /// Decides whether a finalization may go ahead in this state.
    pub fn admit_finalize(self) -> (verdict: Result<(), CallError>)
        ensures
            verdict == (match self.finalize_refusal() {
                Some(e) => Err::<(), CallError>(e),
                None => Ok::<(), CallError>(()),
            }),
    {
        match self {
            CallState::Ready => Err(CallError::NothingToFinalize),
            CallState::AwaitingFinalize => Ok(()),
        }
    }
}

/// After a call, the next call is refused with `FinalizeRequired`: where the
/// first call returned, and where it was itself refused for that reason.
/// The one case apart is a first call from which the component did not
/// return: it leaves the binding `Ready`.
pub proof fn law_second_call_refused(state: CallState, returned: bool)
    requires
        state == CallState::AwaitingFinalize || returned,
    ensures
        state.after_call(returned).call_refusal() == Some(CallError::FinalizeRequired),
{
}

/// A call that was refused, or from which the component did not return,
/// changes nothing.
pub proof fn law_failed_call_keeps_state(state: CallState, returned: bool)
    requires
        state.call_refusal() is Some || !returned,
    ensures
        state.after_call(returned) == state,
{
}

/// After a finalization, attempted in any state, the next finalization is
/// refused with `NothingToFinalize`.
pub proof fn law_second_finalize_refused(state: CallState)
    ensures
        state.after_finalize().finalize_refusal() == Some(CallError::NothingToFinalize),
{
}

/// A call that returned, followed by its finalization, brings the binding
/// back to where it was: the next call is admitted exactly as the first.
pub proof fn law_round_trip(state: CallState)
    requires
        state.call_refusal() is None,
    ensures
        state.after_call(true).finalize_refusal() is None,
        state.after_call(true).after_finalize() == state,
        state.after_call(true).after_finalize().call_refusal() is None,
{
}

} // verus!
