//! What the system asks of the chat platform, one call at a time, and what
//! the platform answers.

use crate::cleanup::CleanupAction;
use crate::kind::ParticipationKind;
use crate::participants::Reactor;
use vstd::prelude::*;

verus! {

/// What is to be done next for an event or a command.
#[derive(Clone, Debug, PartialEq, Eq)]
pub enum Request {
    /// Nothing: the work is done.
    Finish,
    /// Nothing: a call failed, and the work ends with that failure.
    Abort,
    /// Fetch a message.
    FetchMessage { channel: u64, message: u64 },
    /// Post a message to a channel.
    Post { channel: u64, content: String },
    /// Answer the command; an answer marked so is shown to its user alone.
    Reply { content: String, only_to_user: bool },
    /// Create a role that can be mentioned.
    CreateRole { guild: u64, name: String },
    /// Fetch a member of a guild, with the member's roles.
    FetchMember { guild: u64, user: u64 },
    /// Grant a role to a member.
    GrantRole { guild: u64, user: u64, role: u64 },
    /// Fetch one page of the actors who hold a reaction, at most `limit` of
    /// them, starting after the actor `after`.
    FetchReactors {
        channel: u64,
        message: u64,
        kind: ParticipationKind,
        after: Option<u64>,
        limit: usize,
    },
    /// Remove every reaction of one kind from a message.
    ClearReactions { channel: u64, message: u64, kind: ParticipationKind },
    /// Add the system's own reaction of one kind to a message.
    AddReaction { channel: u64, message: u64, kind: ParticipationKind },
    /// Delete a message.
    DeleteMessage { channel: u64, message: u64 },
    /// Schedule a cleanup, `delay_seconds` from now. The cleanup runs on
    /// its own; whether it succeeds is never reported.
    Schedule { delay_seconds: u64, action: CleanupAction },
}

/// The mathematical value of a `Request`.
pub enum RequestView {
    Finish,
    Abort,
    FetchMessage { channel: u64, message: u64 },
    Post { channel: u64, content: Seq<char> },
    Reply { content: Seq<char>, only_to_user: bool },
    CreateRole { guild: u64, name: Seq<char> },
    FetchMember { guild: u64, user: u64 },
    GrantRole { guild: u64, user: u64, role: u64 },
    FetchReactors {
        channel: u64,
        message: u64,
        kind: ParticipationKind,
        after: Option<u64>,
        limit: usize,
    },
    ClearReactions { channel: u64, message: u64, kind: ParticipationKind },
    AddReaction { channel: u64, message: u64, kind: ParticipationKind },
    DeleteMessage { channel: u64, message: u64 },
    Schedule { delay_seconds: u64, action: CleanupAction },
}

impl View for Request {
    type V = RequestView;

    open spec fn view(&self) -> RequestView {
        match self {
            Request::Finish => RequestView::Finish,
            Request::Abort => RequestView::Abort,
            Request::FetchMessage { channel, message } => RequestView::FetchMessage {
                channel: *channel,
                message: *message,
            },
            Request::Post { channel, content } => RequestView::Post {
                channel: *channel,
                content: content@,
            },
            Request::Reply { content, only_to_user } => RequestView::Reply {
                content: content@,
                only_to_user: *only_to_user,
            },
            Request::CreateRole { guild, name } => RequestView::CreateRole {
                guild: *guild,
                name: name@,
            },
            Request::FetchMember { guild, user } => RequestView::FetchMember {
                guild: *guild,
                user: *user,
            },
            Request::GrantRole { guild, user, role } => RequestView::GrantRole {
                guild: *guild,
                user: *user,
                role: *role,
            },
            Request::FetchReactors { channel, message, kind, after, limit } => {
                RequestView::FetchReactors {
                    channel: *channel,
                    message: *message,
                    kind: *kind,
                    after: *after,
                    limit: *limit,
                }
            },
            Request::ClearReactions { channel, message, kind } => RequestView::ClearReactions {
                channel: *channel,
                message: *message,
                kind: *kind,
            },
            Request::AddReaction { channel, message, kind } => RequestView::AddReaction {
                channel: *channel,
                message: *message,
                kind: *kind,
            },
            Request::DeleteMessage { channel, message } => RequestView::DeleteMessage {
                channel: *channel,
                message: *message,
            },
            Request::Schedule { delay_seconds, action } => RequestView::Schedule {
                delay_seconds: *delay_seconds,
                action: *action,
            },
        }
    }
}

/// What the platform answered to the last request.
#[derive(Clone, Debug, PartialEq, Eq)]
pub enum Response {
    /// The message that was fetched.
    Message { author: u64, content: String },
    /// The message that was posted.
    Posted { message: u64 },
    /// The role that was created.
    RoleCreated { role: u64 },
    /// The roles of the member that was fetched.
    Member { roles: Vec<u64> },
    /// The page of reactors that was fetched.
    Reactors { page: Vec<Reactor> },
    /// The call succeeded and gives nothing back.
    Done,
    /// The call failed.
    Failed,
}

/// The mathematical value of a `Response`.
pub enum ResponseView {
    Message { author: u64, content: Seq<char> },
    Posted { message: u64 },
    RoleCreated { role: u64 },
    Member { roles: Seq<u64> },
    Reactors { page: Seq<Reactor> },
    Done,
    Failed,
}

impl View for Response {
    type V = ResponseView;

    open spec fn view(&self) -> ResponseView {
        match self {
            Response::Message { author, content } => ResponseView::Message {
                author: *author,
                content: content@,
            },
            Response::Posted { message } => ResponseView::Posted { message: *message },
            Response::RoleCreated { role } => ResponseView::RoleCreated { role: *role },
            Response::Member { roles } => ResponseView::Member { roles: roles@ },
            Response::Reactors { page } => ResponseView::Reactors { page: page@ },
            Response::Done => ResponseView::Done,
            Response::Failed => ResponseView::Failed,
        }
    }
}

} // verus!
