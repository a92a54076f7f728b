use recruitment::cleanup::{next_cleanup_call, schedule, CleanupAction, CLEANUP_DELAY_SECONDS};
use recruitment::kind::ParticipationKind;
use recruitment::platform::Request;

#[test]
fn a_cleanup_is_scheduled_an_hour_ahead() {
    let action = CleanupAction::DeleteMessage { channel: 1, message: 2 };
    assert_eq!(
        schedule(CLEANUP_DELAY_SECONDS, action),
        Request::Schedule { delay_seconds: 3600, action }
    );
    assert_eq!(CLEANUP_DELAY_SECONDS, 3600);
}

#[test]
fn a_deletion_is_one_call() {
    let action = CleanupAction::DeleteMessage { channel: 1, message: 2 };
    assert_eq!(
        next_cleanup_call(action, 0, true),
        Request::DeleteMessage { channel: 1, message: 2 }
    );
    assert_eq!(next_cleanup_call(action, 1, true), Request::Finish);
}

#[test]
fn a_reset_clears_the_kind_and_puts_the_own_reaction_back() {
    let action =
        CleanupAction::ResetReaction { channel: 1, message: 2, kind: ParticipationKind::Silent };
    assert_eq!(
        next_cleanup_call(action, 0, true),
        Request::ClearReactions { channel: 1, message: 2, kind: ParticipationKind::Silent }
    );
    assert_eq!(
        next_cleanup_call(action, 1, true),
        Request::AddReaction { channel: 1, message: 2, kind: ParticipationKind::Silent }
    );
    assert_eq!(next_cleanup_call(action, 2, true), Request::Finish);
}

#[test]
fn a_failure_ends_the_cleanup_without_a_word() {
    let delete = CleanupAction::DeleteMessage { channel: 1, message: 2 };
    assert_eq!(next_cleanup_call(delete, 1, false), Request::Finish);
    let reset =
        CleanupAction::ResetReaction { channel: 1, message: 2, kind: ParticipationKind::Notifying };
    assert_eq!(next_cleanup_call(reset, 1, false), Request::Finish);
}
