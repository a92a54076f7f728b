//! What the controller guarantees: its invariant, the exactness of quorum,
//! the one start sequence that quorum sets off, the reset that empties the
//! reactions, and the grant that leaves a member who has the role alone.

use crate::announce::start_text;
use crate::controller::{
    collect, delete_later, next, quorum, reset_plan, wf, HandlerView, Phase,
};
use crate::kind::ParticipationKind;
use crate::participants::{lemma_merged, merged, Reactor, PAGE_SIZE};
use crate::platform::{RequestView, ResponseView};
use crate::state::{grant_target_of, valid, StateView};
use vstd::prelude::*;

verus! {

/// Every step keeps the invariant of a handling.
pub proof fn lemma_next_keeps_invariant(h: HandlerView, r: ResponseView)
    requires
        wf(h),
    ensures
        wf(next(h, r).0),
{
    match (h.phase, r) {
        (Phase::Collecting { kind }, ResponseView::Reactors { page }) => {
            lemma_merged(h.participants, page, h.own);
        },
        _ => {},
    }
}

/// Quorum is exact. When the last page of reactors has come, the start is
/// announced if the participants are at least as many as the recruitment
/// requires, and the handling ends without any announcement if they are
/// fewer.
pub proof fn lemma_quorum_is_exact(h: HandlerView, page: Seq<Reactor>)
    requires
        wf(h),
        h.phase == (Phase::Collecting { kind: ParticipationKind::Silent }),
        page.len() < PAGE_SIZE,
    ensures
        ({
            let all = merged(h.participants, page, h.own);
            let s = h.recruitment();
            let (after, request) = next(h, ResponseView::Reactors { page });
            &&& after.participants == all
            &&& all.len() >= s.required_participants ==> after.phase == Phase::AwaitStartPosted
                && request == (RequestView::Post {
                channel: h.channel,
                content: start_text(s.mention_target, all, s.activity_title),
            })
            &&& all.len() < s.required_participants ==> after.phase == Phase::Finished && request
                == RequestView::Finish
        }),
{
}

/// Quorum sets off exactly one start sequence. From the last page of
/// reactors on, as long as every call succeeds, the requests are: the start
/// announcement, its deletion after the delay, the calls of the reset in
/// order, and then the end of the handling.
pub proof fn lemma_one_start_sequence(h: HandlerView, page: Seq<Reactor>, posted: u64)
    requires
        wf(h),
        h.phase == (Phase::Collecting { kind: ParticipationKind::Silent }),
        page.len() < PAGE_SIZE,
        quorum(merged(h.participants, page, h.own).len(), h.recruitment().required_participants),
    ensures
        ({
            let s = h.recruitment();
            let plan = reset_plan(h.channel, h.message, s.notify_on_join);
            let (h1, r1) = next(h, ResponseView::Reactors { page });
            let (h2, r2) = next(h1, ResponseView::Posted { message: posted });
            let (h3, r3) = next(h2, ResponseView::Done);
            let (h4, r4) = next(h3, ResponseView::Done);
            let (h5, r5) = next(h4, ResponseView::Done);
            let (h6, r6) = next(h5, ResponseView::Done);
            let (h7, r7) = next(h6, ResponseView::Done);
            &&& r1 == (RequestView::Post {
                channel: h.channel,
                content: start_text(
                    s.mention_target,
                    merged(h.participants, page, h.own),
                    s.activity_title,
                ),
            })
            &&& r2 == delete_later(h, posted)
            &&& r3 == plan[0]
            &&& r4 == plan[1]
            &&& r5 == plan[2]
            &&& if s.notify_on_join {
                plan.len() == 4 && r6 == plan[3] && r7 == RequestView::Finish
            } else {
                plan.len() == 3 && r6 == RequestView::Finish
            }
            &&& h7.phase == Phase::Finished
        }),
{
}

/// Who holds the reaction of `kind` on a message once the platform has made
/// `call`, where `reactors` held it before and `own` is the system's actor.
pub open spec fn reactors_after(
    call: RequestView,
    kind: ParticipationKind,
    reactors: Set<u64>,
    own: u64,
) -> Set<u64> {
    match call {
        RequestView::ClearReactions { channel, message, kind: cleared } => if cleared == kind {
            Set::empty()
        } else {
            reactors
        },
        RequestView::AddReaction { channel, message, kind: added } => if added == kind {
            reactors.insert(own)
        } else {
            reactors
        },
        _ => reactors,
    }
}

/// Who holds the reaction of `kind` once the platform has made `calls`, in
/// order.
pub open spec fn reactors_after_all(
    calls: Seq<RequestView>,
    kind: ParticipationKind,
    reactors: Set<u64>,
    own: u64,
) -> Set<u64>
    decreases calls.len(),
{
    if calls.len() == 0 {
        reactors
    } else {
        reactors_after(
            calls.last(),
            kind,
            reactors_after_all(calls.drop_last(), kind, reactors, own),
            own,
        )
    }
}

/// Who holds the reaction of `kind` at the baseline: the system's own
/// actor where the reaction is on offer, and nobody else.
pub open spec fn baseline(notify: bool, kind: ParticipationKind, own: u64) -> Set<u64> {
    if kind == ParticipationKind::Notifying || notify {
        set![own]
    } else {
        Set::empty()
    }
}

/// The reset sets the reactions to the baseline. Whoever held a reaction of
/// either kind before, after the calls of the reset nobody but the system's
/// own actor holds one. What was there before does not count, so a reset
/// that runs twice leaves what one reset leaves.
pub proof fn lemma_reset_gives_baseline(
    channel: u64,
    message: u64,
    notify: bool,
    kind: ParticipationKind,
    reactors: Set<u64>,
    own: u64,
)
    ensures
        reactors_after_all(reset_plan(channel, message, notify), kind, reactors, own) == baseline(
            notify,
            kind,
            own,
        ),
{
    let plan = reset_plan(channel, message, notify);
    let one = plan.take(1);
    let two = plan.take(2);
    let three = plan.take(3);
    assert(one.drop_last() =~= Seq::<RequestView>::empty());
    assert(two.drop_last() =~= one);
    assert(three.drop_last() =~= two);
    let after_one = reactors_after_all(one, kind, reactors, own);
    let after_two = reactors_after_all(two, kind, reactors, own);
    let after_three = reactors_after_all(three, kind, reactors, own);
    assert(reactors_after_all(one.drop_last(), kind, reactors, own) == reactors);
    assert(one.last() == plan[0]);
    assert(two.last() == plan[1]);
    assert(three.last() == plan[2]);
    assert(kind == ParticipationKind::Notifying ==> after_one =~= Set::<u64>::empty());
    assert(after_two =~= Set::<u64>::empty());
    assert(after_three =~= baseline(false, kind, own));
    if notify {
        assert(plan.drop_last() =~= three);
        assert(plan.last() == plan[3]);
        assert(reactors_after_all(plan, kind, reactors, own) =~= baseline(notify, kind, own));
    } else {
        assert(plan =~= three);
    }
}

/// After a reset the round is open again: nobody who counts holds a
/// reaction of either kind, whatever page the platform makes of the
/// reactors, so a valid recruitment is short of quorum.
pub proof fn lemma_reset_reopens_the_round(
    s: StateView,
    notify: bool,
    kind: ParticipationKind,
    page: Seq<Reactor>,
    own: u64,
)
    requires
        valid(s),
        forall|i: int| 0 <= i < page.len() ==> baseline(notify, kind, own).contains(#[trigger] page[i].id),
    ensures
        merged(Seq::empty(), page, own) == Seq::<u64>::empty(),
        !quorum(merged(Seq::empty(), page, own).len(), s.required_participants),
    decreases page.len(),
{
    if page.len() > 0 {
        let rest = page.drop_last();
        assert forall|i: int| 0 <= i < rest.len() implies baseline(notify, kind, own).contains(
            #[trigger] rest[i].id,
        ) by {
            assert(rest[i] == page[i]);
        }
        lemma_reset_reopens_the_round(s, notify, kind, rest, own);
        assert(baseline(notify, kind, own).contains(page[page.len() - 1].id));
    }
}

/// The roles of a member once the platform has made `call`.
pub open spec fn roles_after(call: RequestView, roles: Set<u64>) -> Set<u64> {
    match call {
        RequestView::GrantRole { guild, user, role } => roles.insert(role),
        _ => roles,
    }
}

/// The grant is idempotent. A member without the role is granted it. Once
/// the member holds it, a later handling asks for no grant and posts no
/// error: it goes on to gather the participants, and the member's roles
/// stay as they are.
pub proof fn lemma_grant_is_idempotent(h: HandlerView, roles: Seq<u64>, later: Seq<u64>)
    requires
        wf(h),
        h.phase == Phase::AwaitMember,
        !roles.contains(grant_target_of(h.recruitment())->0),
        later.to_set() == roles_after(next(h, ResponseView::Member { roles }).1, roles.to_set()),
    ensures
        next(h, ResponseView::Member { roles }).1 == (RequestView::GrantRole {
            guild: h.guild->0,
            user: h.actor->0,
            role: grant_target_of(h.recruitment())->0,
        }),
        next(h, ResponseView::Member { roles: later }) == collect(h),
        roles_after(next(h, ResponseView::Member { roles: later }).1, later.to_set())
            == later.to_set(),
{
    let role = grant_target_of(h.recruitment())->0;
    assert(roles.to_set().insert(role).contains(role));
    assert(later.to_set().contains(role));
    assert(later.contains(role));
}

} // verus!
