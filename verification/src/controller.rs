//! The recruitment controller: what to do, call by call, about one reaction
//! that was added to a message.
//!
//! The controller makes no call itself. `Handler::start` and `Handler::step`
//! say which call comes next; whoever runs the handler makes the call and
//! hands its answer to `step`.

use crate::announce::{
    decode_error_message, decode_error_text, grant_error_message, grant_error_text, join_notice,
    join_notice_text, start_announcement, start_text,
};
use crate::codec::{decode, decoding};
use crate::kind::{
    carries_recruitment, classification, classify, is_owning_message, ParticipationKind,
    ReactionEvent, ReactionView,
};
use crate::participants::{cursor_after, is_last_page, merged, ParticipantSet, Reactor, PAGE_SIZE};
use crate::cleanup::{schedule, CleanupAction, CLEANUP_DELAY_SECONDS};
use crate::platform::{Request, RequestView, Response, ResponseView};
use crate::state::{grant_target_of, valid, RecruitmentState, StateView};
use vstd::prelude::*;

verus! {

/// Where the handling of an event stands: which answer it waits for.
#[derive(Clone, Copy, Debug, PartialEq, Eq, Structural)]
pub enum Phase {
    /// The owning message was asked for.
    AwaitMessage,
    /// The message about an unreadable fragment is being posted.
    AwaitErrorPosted,
    /// The per-join announcement is being posted.
    AwaitJoinPosted,
    /// The deletion of the per-join announcement is being scheduled.
    AwaitJoinScheduled,
    /// The acting member was asked for.
    AwaitMember,
    /// The role is being granted.
    AwaitGrant,
    /// The message about a failed grant is being posted.
    AwaitGrantErrorPosted,
    /// A page of the reactors of one kind was asked for.
    Collecting { kind: ParticipationKind },
    /// The start announcement is being posted.
    AwaitStartPosted,
    /// The deletion of the start announcement is being scheduled.
    AwaitStartScheduled,
    /// The reactions are being reset; `index` counts the calls of the reset
    /// that were answered.
    Resetting { index: usize },
    /// Nothing is left to do.
    Finished,
}

/// The mathematical value of a `Handler`.
pub struct HandlerView {
    /// The system's own actor.
    pub own: u64,
    /// The actor who reacted, where the event names one.
    pub actor: Option<u64>,
    /// The kind of the reaction.
    pub kind: ParticipationKind,
    pub channel: u64,
    pub message: u64,
    pub guild: Option<u64>,
    /// The recruitment, once it was read from the message.
    pub state: Option<StateView>,
    /// The participants gathered so far, in the order of first sight.
    pub participants: Seq<u64>,
    pub phase: Phase,
}

impl HandlerView {
    /// The same handling in another phase.
    pub open spec fn at(self, phase: Phase) -> HandlerView {
        HandlerView { phase, ..self }
    }

    /// The recruitment that was read.
    pub open spec fn recruitment(self) -> StateView
        recommends
            self.state is Some,
    {
        self.state->0
    }
}

/// Quorum: at least as many participants as the recruitment requires.
pub open spec fn quorum(participants: nat, required: u64) -> bool {
    participants >= required
}

/// Whether a phase comes after the recruitment was read.
pub open spec fn has_state(phase: Phase) -> bool {
    phase != Phase::AwaitMessage && phase != Phase::AwaitErrorPosted && phase != Phase::Finished
}

/// Whether a phase belongs to the grant of a role.
pub open spec fn grants(phase: Phase) -> bool {
    phase == Phase::AwaitMember || phase == Phase::AwaitGrant
}

/// The calls that reset the reactions of the owning message: every
/// reaction of either kind is removed, then the system's own reactions are
/// put back: the notifying one always, the silent one where joins are
/// announced.
pub open spec fn reset_plan(channel: u64, message: u64, notify: bool) -> Seq<RequestView> {
    let clear = seq![
        RequestView::ClearReactions { channel, message, kind: ParticipationKind::Notifying },
        RequestView::ClearReactions { channel, message, kind: ParticipationKind::Silent },
        RequestView::AddReaction { channel, message, kind: ParticipationKind::Notifying },
    ];
    if notify {
        clear.push(RequestView::AddReaction { channel, message, kind: ParticipationKind::Silent })
    } else {
        clear
    }
}

/// The invariant of a handling.
pub open spec fn wf(h: HandlerView) -> bool {
    &&& h.participants.no_duplicates()
    &&& has_state(h.phase) ==> h.state is Some && valid(h.recruitment())
    &&& grants(h.phase) ==> grant_target_of(h.recruitment()) is Some && h.actor is Some
        && h.guild is Some
    &&& h.phase == Phase::AwaitJoinPosted ==> h.actor is Some
    &&& h.phase matches Phase::Resetting { index } ==> index < reset_plan(
        h.channel,
        h.message,
        h.recruitment().notify_on_join,
    ).len()
}

/// The handling is done.
pub open spec fn finish(h: HandlerView) -> (HandlerView, RequestView) {
    (h.at(Phase::Finished), RequestView::Finish)
}

/// The handling ends with a failure.
pub open spec fn abort(h: HandlerView) -> (HandlerView, RequestView) {
    (h.at(Phase::Finished), RequestView::Abort)
}

/// How the handling of an event begins: an event that does not concern
/// recruitments gets none; any other starts by fetching its message.
pub open spec fn begin(
    own: u64,
    actor: Option<u64>,
    reaction: ReactionView,
    channel: u64,
    message: u64,
    guild: Option<u64>,
) -> Option<(HandlerView, RequestView)> {
    match classification(actor, reaction, own) {
        None => None,
        Some(kind) => Some(
            (
                HandlerView {
                    own,
                    actor,
                    kind,
                    channel,
                    message,
                    guild,
                    state: None,
                    participants: Seq::empty(),
                    phase: Phase::AwaitMessage,
                },
                RequestView::FetchMessage { channel, message },
            ),
        ),
    }
}

/// After the message came: a message that carries no recruitment of this
/// system ends the handling; a fragment that cannot be read is answered
/// with the error message and nothing else; a recruitment is taken up.
pub open spec fn after_message(h: HandlerView, author: u64, content: Seq<char>) -> (
    HandlerView,
    RequestView,
) {
    if !carries_recruitment(author, h.own, content) {
        finish(h)
    } else {
        match decoding(content) {
            Err(_) => (
                h.at(Phase::AwaitErrorPosted),
                RequestView::Post { channel: h.channel, content: decode_error_text(h.actor) },
            ),
            Ok(s) => announce_join(HandlerView { state: Some(s), ..h }),
        }
    }
}

/// The per-join announcement: posted where the recruitment announces
/// joins, the reaction is of the notifying kind and the event names its
/// actor; whatever the participants' number.
pub open spec fn announce_join(h: HandlerView) -> (HandlerView, RequestView) {
    let s = h.recruitment();
    if s.notify_on_join && h.kind == ParticipationKind::Notifying && h.actor is Some {
        (
            h.at(Phase::AwaitJoinPosted),
            RequestView::Post {
                channel: h.channel,
                content: join_notice_text(h.actor->0, s.activity_title),
            },
        )
    } else {
        grant(h)
    }
}

/// The grant: where the recruitment grants its role and the event names
/// actor and guild, the member is fetched first.
pub open spec fn grant(h: HandlerView) -> (HandlerView, RequestView) {
    if grant_target_of(h.recruitment()) is Some && h.actor is Some && h.guild is Some {
        (
            h.at(Phase::AwaitMember),
            RequestView::FetchMember { guild: h.guild->0, user: h.actor->0 },
        )
    } else {
        collect(h)
    }
}

/// After the member came: one who holds the role already is left alone.
pub open spec fn after_member(h: HandlerView, roles: Seq<u64>) -> (HandlerView, RequestView) {
    let role = grant_target_of(h.recruitment())->0;
    if roles.contains(role) {
        collect(h)
    } else {
        (
            h.at(Phase::AwaitGrant),
            RequestView::GrantRole { guild: h.guild->0, user: h.actor->0, role },
        )
    }
}

/// A grant that failed is reported to the channel; the handling goes on.
pub open spec fn grant_failed(h: HandlerView) -> (HandlerView, RequestView) {
    (
        h.at(Phase::AwaitGrantErrorPosted),
        RequestView::Post { channel: h.channel, content: grant_error_text(h.actor) },
    )
}

/// The request for one page of reactors.
pub open spec fn page_request(h: HandlerView, kind: ParticipationKind, after: Option<u64>) -> RequestView {
    RequestView::FetchReactors {
        channel: h.channel,
        message: h.message,
        kind,
        after,
        limit: PAGE_SIZE,
    }
}

/// The participants are gathered afresh, starting with the first page of
/// the notifying kind.
pub open spec fn collect(h: HandlerView) -> (HandlerView, RequestView) {
    (
        HandlerView {
            participants: Seq::empty(),
            phase: Phase::Collecting { kind: ParticipationKind::Notifying },
            ..h
        },
        page_request(h, ParticipationKind::Notifying, None),
    )
}

/// After a page came: its reactors who count are merged in. A full page is
/// followed by the next page of its kind, a shorter one by the first page
/// of the silent kind or, after the silent kind, by the decision.
pub open spec fn after_page(h: HandlerView, kind: ParticipationKind, page: Seq<Reactor>) -> (
    HandlerView,
    RequestView,
) {
    let seen = HandlerView { participants: merged(h.participants, page, h.own), ..h };
    if page.len() >= PAGE_SIZE {
        (seen, page_request(h, kind, Some(page.last().id)))
    } else if kind == ParticipationKind::Notifying {
        (
            seen.at(Phase::Collecting { kind: ParticipationKind::Silent }),
            page_request(h, ParticipationKind::Silent, None),
        )
    } else {
        decide(seen)
    }
}

/// The decision: with quorum the start is announced, without it nothing
/// more happens.
pub open spec fn decide(h: HandlerView) -> (HandlerView, RequestView) {
    let s = h.recruitment();
    if quorum(h.participants.len(), s.required_participants) {
        (
            h.at(Phase::AwaitStartPosted),
            RequestView::Post {
                channel: h.channel,
                content: start_text(s.mention_target, h.participants, s.activity_title),
            },
        )
    } else {
        finish(h)
    }
}

/// The deletion of a message that was posted, after the fixed delay.
pub open spec fn delete_later(h: HandlerView, posted: u64) -> RequestView {
    RequestView::Schedule {
        delay_seconds: CLEANUP_DELAY_SECONDS,
        action: CleanupAction::DeleteMessage { channel: h.channel, message: posted },
    }
}

/// The reset, from its call number `index` on.
pub open spec fn reset_from(h: HandlerView, index: usize) -> (HandlerView, RequestView) {
    let plan = reset_plan(h.channel, h.message, h.recruitment().notify_on_join);
    if index < plan.len() {
        (h.at(Phase::Resetting { index }), plan[index as int])
    } else {
        finish(h)
    }
}

/// What follows an answer: the handling after it, and the next request.
/// An answer that the phase does not wait for, and the failure of a call
/// other than those of the grant, end the handling with `Abort`.
pub open spec fn next(h: HandlerView, r: ResponseView) -> (HandlerView, RequestView) {
    match (h.phase, r) {
        (Phase::Finished, _) => (h, RequestView::Finish),
        (Phase::AwaitMessage, ResponseView::Message { author, content }) => after_message(
            h,
            author,
            content,
        ),
        (Phase::AwaitErrorPosted, ResponseView::Posted { message }) => finish(h),
        (Phase::AwaitJoinPosted, ResponseView::Posted { message }) => (
            h.at(Phase::AwaitJoinScheduled),
            delete_later(h, message),
        ),
        (Phase::AwaitJoinScheduled, ResponseView::Done) => grant(h),
        (Phase::AwaitMember, ResponseView::Member { roles }) => after_member(h, roles),
        (Phase::AwaitMember, ResponseView::Failed) => grant_failed(h),
        (Phase::AwaitGrant, ResponseView::Done) => collect(h),
        (Phase::AwaitGrant, ResponseView::Failed) => grant_failed(h),
        (Phase::AwaitGrantErrorPosted, ResponseView::Posted { message }) => collect(h),
        (Phase::Collecting { kind }, ResponseView::Reactors { page }) => after_page(h, kind, page),
        (Phase::AwaitStartPosted, ResponseView::Posted { message }) => (
            h.at(Phase::AwaitStartScheduled),
            delete_later(h, message),
        ),
        (Phase::AwaitStartScheduled, ResponseView::Done) => reset_from(h, 0),
        (Phase::Resetting { index }, ResponseView::Done) => reset_from(h, (index + 1) as usize),
        _ => abort(h),
    }
}

/// The handling of one reaction that was added to a message.
#[derive(Clone, Debug)]
pub struct Handler {
    own: u64,
    actor: Option<u64>,
    kind: ParticipationKind,
    channel: u64,
    message: u64,
    guild: Option<u64>,
    state: Option<RecruitmentState>,
    participants: ParticipantSet,
    phase: Phase,
}

impl View for Handler {
    type V = HandlerView;

    closed spec fn view(&self) -> HandlerView {
        HandlerView {
            own: self.own,
            actor: self.actor,
            kind: self.kind,
            channel: self.channel,
            message: self.message,
            guild: self.guild,
            state: match self.state {
                Some(s) => Some(s@),
                None => None,
            },
            participants: self.participants.order(),
            phase: self.phase,
        }
    }
}

impl Handler {
    /// Takes up `event` for the system whose own actor is `own`: `None`
    /// where the event does not concern recruitments, else the handling
    /// and its first request.
    pub fn start(own: u64, event: &ReactionEvent) -> (r: Option<(Handler, Request)>)
        ensures
            match r {
                Some((h, request)) => wf(h@) && begin(
                    own,
                    event.actor,
                    event.reaction@,
                    event.channel,
                    event.message,
                    event.guild,
                ) == Some((h@, request@)),
                None => begin(
                    own,
                    event.actor,
                    event.reaction@,
                    event.channel,
                    event.message,
                    event.guild,
                ) is None,
            },
    {
        match classify(event, own) {
            None => None,
            Some(kind) => {
                let h = Handler {
                    own,
                    actor: event.actor,
                    kind,
                    channel: event.channel,
                    message: event.message,
                    guild: event.guild,
                    state: None,
                    participants: ParticipantSet::new(),
                    phase: Phase::AwaitMessage,
                };
                let request = Request::FetchMessage {
                    channel: event.channel,
                    message: event.message,
                };
                Some((h, request))
            },
        }
    }

    /// Where the handling stands.
    pub fn phase(&self) -> (p: Phase)
        ensures
            p == self@.phase,
    {
        self.phase
    }

    /// Whether nothing is left to do.
    pub fn is_finished(&self) -> (r: bool)
        ensures
            r == (self@.phase == Phase::Finished),
    {
        match self.phase {
            Phase::Finished => true,
            _ => false,
        }
    }

    /// The participants gathered so far, in the order of first sight.
    pub fn participants(&self) -> (out: Vec<u64>)
        ensures
            out@ == self@.participants,
    {
        self.participants.to_vec()
    }

    fn finish(&mut self) -> (request: Request)
        ensures
            (final(self)@, request@) == finish(old(self)@),
    {
        self.phase = Phase::Finished;
        Request::Finish
    }

    fn abort(&mut self) -> (request: Request)
        ensures
            (final(self)@, request@) == abort(old(self)@),
    {
        self.phase = Phase::Finished;
        Request::Abort
    }

    fn announce_join(&mut self) -> (request: Request)
        requires
            old(self)@.state is Some,
        ensures
            (final(self)@, request@) == announce_join(old(self)@),
    {
        let s: &RecruitmentState = self.state.as_ref().unwrap();
        match self.actor {
            Some(actor) => {
                if s.notify_on_join && self.kind.is_notifying() {
                    let content = join_notice(actor, s.activity_title.as_str());
                    self.phase = Phase::AwaitJoinPosted;
                    return Request::Post { channel: self.channel, content };
                }
            },
            None => {},
        }
        self.grant()
    }

    fn grant(&mut self) -> (request: Request)
        requires
            old(self)@.state is Some,
        ensures
            (final(self)@, request@) == grant(old(self)@),
    {
        let target = self.state.as_ref().unwrap().grant_target();
        match (target, self.actor, self.guild) {
            (Some(_), Some(user), Some(guild)) => {
                self.phase = Phase::AwaitMember;
                Request::FetchMember { guild, user }
            },
            _ => self.collect(),
        }
    }

    fn after_member(&mut self, roles: &Vec<u64>) -> (request: Request)
        requires
            old(self)@.state is Some,
            grant_target_of(old(self)@.recruitment()) is Some,
            old(self)@.actor is Some,
            old(self)@.guild is Some,
        ensures
            (final(self)@, request@) == after_member(old(self)@, roles@),
    {
        let role = self.state.as_ref().unwrap().grant_target().unwrap();
        if holds_role(roles, role) {
            self.collect()
        } else {
            self.phase = Phase::AwaitGrant;
            Request::GrantRole { guild: self.guild.unwrap(), user: self.actor.unwrap(), role }
        }
    }

    fn grant_failed(&mut self) -> (request: Request)
        ensures
            (final(self)@, request@) == grant_failed(old(self)@),
    {
        self.phase = Phase::AwaitGrantErrorPosted;
        Request::Post { channel: self.channel, content: grant_error_message(self.actor) }
    }

    fn page_request(&self, kind: ParticipationKind, after: Option<u64>) -> (request: Request)
        ensures
            request@ == page_request(self@, kind, after),
    {
        Request::FetchReactors {
            channel: self.channel,
            message: self.message,
            kind,
            after,
            limit: PAGE_SIZE,
        }
    }

    fn collect(&mut self) -> (request: Request)
        ensures
            (final(self)@, request@) == collect(old(self)@),
    {
        self.participants = ParticipantSet::new();
        self.phase = Phase::Collecting { kind: ParticipationKind::Notifying };
        self.page_request(ParticipationKind::Notifying, None)
    }

    fn after_page(&mut self, kind: ParticipationKind, page: &Vec<Reactor>) -> (request: Request)
        requires
            old(self)@.state is Some,
            old(self)@.participants.no_duplicates(),
        ensures
            final(self)@.participants.no_duplicates(),
            (final(self)@, request@) == after_page(old(self)@, kind, page@),
    {
        self.participants.add_page(page, self.own);
        if !is_last_page(page.len()) {
            self.page_request(kind, cursor_after(page))
        } else if kind.is_notifying() {
            self.phase = Phase::Collecting { kind: ParticipationKind::Silent };
            self.page_request(ParticipationKind::Silent, None)
        } else {
            self.decide()
        }
    }

    fn decide(&mut self) -> (request: Request)
        requires
            old(self)@.state is Some,
        ensures
            (final(self)@, request@) == decide(old(self)@),
    {
        let s: &RecruitmentState = self.state.as_ref().unwrap();
        if self.participants.len() as u64 >= s.required_participants {
            let ids = self.participants.to_vec();
            let content = start_announcement(s.mention_target, &ids, s.activity_title.as_str());
            self.phase = Phase::AwaitStartPosted;
            Request::Post { channel: self.channel, content }
        } else {
            self.finish()
        }
    }

    fn delete_later(&self, posted: u64) -> (request: Request)
        ensures
            request@ == delete_later(self@, posted),
    {
        schedule(
            CLEANUP_DELAY_SECONDS,
            CleanupAction::DeleteMessage { channel: self.channel, message: posted },
        )
    }

    fn reset_from(&mut self, index: usize) -> (request: Request)
        requires
            old(self)@.state is Some,
        ensures
            (final(self)@, request@) == reset_from(old(self)@, index),
    {
        let notify = self.state.as_ref().unwrap().notify_on_join;
        let channel = self.channel;
        let message = self.message;
        let request = if index == 0 {
            Request::ClearReactions { channel, message, kind: ParticipationKind::Notifying }
        } else if index == 1 {
            Request::ClearReactions { channel, message, kind: ParticipationKind::Silent }
        } else if index == 2 {
            Request::AddReaction { channel, message, kind: ParticipationKind::Notifying }
        } else if index == 3 && notify {
            Request::AddReaction { channel, message, kind: ParticipationKind::Silent }
        } else {
            return self.finish();
        };
        self.phase = Phase::Resetting { index };
        request
    }

    /// Takes the answer to the last request and says what comes next.
    pub fn step(&mut self, response: Response) -> (request: Request)
        requires
            wf(old(self)@),
        ensures
            wf(final(self)@),
            (final(self)@, request@) == next(old(self)@, response@),
    {
        match (self.phase, response) {
            (Phase::Finished, _) => Request::Finish,
            (Phase::AwaitMessage, Response::Message { author, content }) => {
                if !is_owning_message(author, self.own, content.as_str()) {
                    self.finish()
                } else {
                    match decode(content.as_str()) {
                        Err(_) => {
                            self.phase = Phase::AwaitErrorPosted;
                            Request::Post {
                                channel: self.channel,
                                content: decode_error_message(self.actor),
                            }
                        },
                        Ok(s) => {
                            self.state = Some(s);
                            self.announce_join()
                        },
                    }
                }
            },
            (Phase::AwaitErrorPosted, Response::Posted { message }) => self.finish(),
            (Phase::AwaitJoinPosted, Response::Posted { message }) => {
                self.phase = Phase::AwaitJoinScheduled;
                self.delete_later(message)
            },
            (Phase::AwaitJoinScheduled, Response::Done) => self.grant(),
            (Phase::AwaitMember, Response::Member { roles }) => self.after_member(&roles),
            (Phase::AwaitMember, Response::Failed) => self.grant_failed(),
            (Phase::AwaitGrant, Response::Done) => self.collect(),
            (Phase::AwaitGrant, Response::Failed) => self.grant_failed(),
            (Phase::AwaitGrantErrorPosted, Response::Posted { message }) => self.collect(),
            (Phase::Collecting { kind }, Response::Reactors { page }) => self.after_page(
                kind,
                &page,
            ),
            (Phase::AwaitStartPosted, Response::Posted { message }) => {
                self.phase = Phase::AwaitStartScheduled;
                self.delete_later(message)
            },
            (Phase::AwaitStartScheduled, Response::Done) => self.reset_from(0),
            (Phase::Resetting { index }, Response::Done) => self.reset_from(index + 1),
            _ => self.abort(),
        }
    }
}

/// Whether `role` is among `roles`.
pub fn holds_role(roles: &Vec<u64>, role: u64) -> (r: bool)
    ensures
        r == roles@.contains(role),
{
    let mut i: usize = 0;
    while i < roles.len()
        invariant
            i <= roles.len(),
            forall|j: int| 0 <= j < i ==> roles@[j] != role,
        decreases roles.len() - i,
    {
        if roles[i] == role {
            return true;
        }
        i += 1;
    }
    false
}

} // verus!
