//! Deferred cleanup: what is scheduled for later, and the calls that a
//! cleanup makes when its time has come.
//!
//! A cleanup is best effort. It runs apart from the handling that
//! scheduled it, cannot be withdrawn, and a call of it that fails ends it
//! without a word.

use crate::kind::ParticipationKind;
use crate::platform::{Request, RequestView};
use vstd::prelude::*;

verus! {

/// How long after it was scheduled a cleanup runs, in seconds.
pub const CLEANUP_DELAY_SECONDS: u64 = 3600;

/// What a cleanup does.
#[derive(Clone, Copy, Debug, PartialEq, Eq, Structural)]
pub enum CleanupAction {
    /// Delete a message.
    DeleteMessage { channel: u64, message: u64 },
    /// Remove every reaction of one kind from a message, then put the
    /// system's own reaction of that kind back.
    ResetReaction { channel: u64, message: u64, kind: ParticipationKind },
}

/// The calls of a cleanup, in order.
pub open spec fn cleanup_calls(action: CleanupAction) -> Seq<RequestView> {
    match action {
        CleanupAction::DeleteMessage { channel, message } => seq![
            RequestView::DeleteMessage { channel, message },
        ],
        CleanupAction::ResetReaction { channel, message, kind } => seq![
            RequestView::ClearReactions { channel, message, kind },
            RequestView::AddReaction { channel, message, kind },
        ],
    }
}

/// What a cleanup does next, when `answered` of its calls were made and the
/// last of them succeeded or not: the next call as long as all went well
/// and one is left, and else nothing. A failure is never passed on.
pub open spec fn cleanup_next(action: CleanupAction, answered: usize, succeeded: bool) -> RequestView {
    if succeeded && answered < cleanup_calls(action).len() {
        cleanup_calls(action)[answered as int]
    } else {
        RequestView::Finish
    }
}

/// The request that schedules `action` for `delay_seconds` from now.
pub fn schedule(delay_seconds: u64, action: CleanupAction) -> (request: Request)
    ensures
        request@ == (RequestView::Schedule { delay_seconds, action }),
{
    Request::Schedule { delay_seconds, action }
}

/// What the cleanup `action` does next, when `answered` of its calls were
/// made and the last of them succeeded or not. Before the first call,
/// `answered` is zero and `succeeded` is true.
pub fn next_cleanup_call(action: CleanupAction, answered: usize, succeeded: bool) -> (request:
    Request)
    ensures
        request@ == cleanup_next(action, answered, succeeded),
        request@ != RequestView::Abort,
{
    if !succeeded {
        return Request::Finish;
    }
    match action {
        CleanupAction::DeleteMessage { channel, message } => {
            if answered == 0 {
                Request::DeleteMessage { channel, message }
            } else {
                Request::Finish
            }
        },
        CleanupAction::ResetReaction { channel, message, kind } => {
            if answered == 0 {
                Request::ClearReactions { channel, message, kind }
            } else if answered == 1 {
                Request::AddReaction { channel, message, kind }
            } else {
                Request::Finish
            }
        },
    }
}

} // verus!
