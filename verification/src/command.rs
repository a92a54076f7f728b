//! The command that creates a recruitment: its parameters are checked, the
//! role is created where that was asked for, the owning message is posted
//! and the system's own reactions are put on it.

use crate::codec::{decoding, encode, encoding, DecodeError};
use crate::framing::{
    lemma_decode_of_encoding, lemma_no_backtick_concat, lemma_no_marker_between,
    lines_read_as_written, no_backtick,
};
use crate::fragment::{has_open_marker, open_marker};
use crate::kind::ParticipationKind;
use crate::platform::{Request, RequestView, Response, ResponseView};
use crate::state::{valid, RecruitmentState, StateView, MAX_COUNT};
use crate::text::{chars_of, find_from, push_text, string_of};
use vstd::prelude::*;

verus! {

/// What the user of the command gave.
#[derive(Clone, Debug, PartialEq, Eq)]
pub struct RecruitParams {
    /// The activity's title.
    pub title: String,
    /// How many participants start the activity.
    pub required: u64,
    /// The role to mention at the start, if one was chosen.
    pub mention_role: Option<u64>,
    /// Whether to create a role, named after the activity, where none was
    /// chosen; not by default.
    pub create_role: Option<bool>,
    /// Whether to grant the role to participants who join; by default
    /// exactly where the role is created.
    pub auto_assign: Option<bool>,
    /// Whether to announce joins; by default yes.
    pub notify: Option<bool>,
}

/// Why the command creates no recruitment.
#[derive(Clone, Copy, Debug, PartialEq, Eq, Structural)]
pub enum Rejection {
    /// No participant is required.
    ZeroParticipants,
    /// More participants are required than a fragment can carry.
    TooManyParticipants,
    /// The title is empty.
    EmptyTitle,
    /// The title holds an opening marker, so that the fragment of the
    /// message could not be told from the title.
    MarkerInTitle,
    /// The role that was chosen has the identifier zero.
    InvalidRole,
    /// A role was to be created outside any guild.
    NoGuild,
}

/// What is wrong with the parameters, if anything: the participant count
/// is looked at first, then the title, then the role.
pub open spec fn rejection_of(title: Seq<char>, required: u64, mention_role: Option<u64>) -> Option<
    Rejection,
> {
    if required == 0 {
        Some(Rejection::ZeroParticipants)
    } else if required > MAX_COUNT {
        Some(Rejection::TooManyParticipants)
    } else if title.len() == 0 {
        Some(Rejection::EmptyTitle)
    } else if find_from(title, open_marker(), 0) is Some {
        Some(Rejection::MarkerInTitle)
    } else if mention_role == Some(0u64) {
        Some(Rejection::InvalidRole)
    } else {
        None
    }
}

/// What is wrong with the parameters, if anything.
pub fn check_params(title: &str, required: u64, mention_role: Option<u64>) -> (r: Option<
    Rejection,
>)
    ensures
        r == rejection_of(title@, required, mention_role),
{
    if required == 0 {
        return Some(Rejection::ZeroParticipants);
    }
    if required > MAX_COUNT {
        return Some(Rejection::TooManyParticipants);
    }
    if title.is_empty() {
        return Some(Rejection::EmptyTitle);
    }
    if has_open_marker(title) {
        return Some(Rejection::MarkerInTitle);
    }
    match mention_role {
        Some(id) => if id == 0 {
            Some(Rejection::InvalidRole)
        } else {
            None
        },
        None => None,
    }
}

/// The sentence that tells the user of a rejection.
pub open spec fn rejection_text(rejection: Rejection) -> Seq<char> {
    match rejection {
        Rejection::ZeroParticipants => "required_players は 1 以上を指定してください。"@,
        Rejection::TooManyParticipants => "required_players が大きすぎます。"@,
        Rejection::EmptyTitle => "game_title を指定してください。"@,
        Rejection::MarkerInTitle => "game_title に ```toml を含めることはできません。"@,
        Rejection::InvalidRole => "mention_role が正しくありません。"@,
        Rejection::NoGuild => "サーバー内でのみロールを作成できます。"@,
    }
}

/// The sentence that tells the user of `rejection`.
pub fn rejection_message(rejection: Rejection) -> (out: String)
    ensures
        out@ == rejection_text(rejection),
{
    let text = match rejection {
        Rejection::ZeroParticipants => "required_players は 1 以上を指定してください。",
        Rejection::TooManyParticipants => "required_players が大きすぎます。",
        Rejection::EmptyTitle => "game_title を指定してください。",
        Rejection::MarkerInTitle => "game_title に ```toml を含めることはできません。",
        Rejection::InvalidRole => "mention_role が正しくありません。",
        Rejection::NoGuild => "サーバー内でのみロールを作成できます。",
    };
    let chars = chars_of(text);
    string_of(&chars)
}

/// Whether a rejection is shown to the user of the command alone.
pub open spec fn is_private(rejection: Rejection) -> bool {
    rejection == Rejection::NoGuild
}

/// The recruitment that the parameters describe, with the role that was
/// chosen or created, if any: joins are announced unless that was turned
/// off, and the role is granted where that was asked for, or, without a
/// word on it, where the role was to be created; never without a role.
pub open spec fn planned(
    title: Seq<char>,
    required: u64,
    create_role: Option<bool>,
    auto_assign: Option<bool>,
    notify: Option<bool>,
    role: Option<u64>,
) -> StateView {
    StateView {
        activity_title: title,
        required_participants: required,
        mention_target: role,
        notify_on_join: flag_or(notify, true),
        auto_assign_on_join: flag_or(auto_assign, flag_or(create_role, false)) && role is Some,
    }
}

/// A flag, or its default where it was not given.
pub open spec fn flag_or(flag: Option<bool>, default: bool) -> bool {
    match flag {
        Some(b) => b,
        None => default,
    }
}

fn flag(given: Option<bool>, default: bool) -> (r: bool)
    ensures
        r == flag_or(given, default),
{
    match given {
        Some(b) => b,
        None => default,
    }
}

/// The recruitment that `params` describe, with the role that was chosen
/// or created, if any.
pub fn plan_state(params: &RecruitParams, role: Option<u64>) -> (out: RecruitmentState)
    ensures
        out@ == planned(
            params.title@,
            params.required,
            params.create_role,
            params.auto_assign,
            params.notify,
            role,
        ),
{
    let create = flag(params.create_role, false);
    RecruitmentState {
        activity_title: params.title.clone(),
        required_participants: params.required,
        mention_target: role,
        notify_on_join: flag(params.notify, true),
        auto_assign_on_join: flag(params.auto_assign, create) && role.is_some(),
    }
}

/// The lines that tell readers which reaction does what.
pub open spec fn reaction_lines(notify: bool) -> Seq<char> {
    if notify {
        "✋: 参加"@ + "\n🤚: 参加通知なしで参加"@
    } else {
        "✋: 参加"@
    }
}

/// What stands in the owning message before the fragment.
pub open spec fn preamble(s: StateView) -> Seq<char> {
    "\nこのメッセージにリアクションをつけると "@ + s.activity_title + " に参加できます\n"@
        + reaction_lines(s.notify_on_join) + "\n人数が揃ったら開始通知が送られます\n"@
}

/// The owning message of a recruitment: the words for its readers, then
/// the fragment.
pub open spec fn message_body(s: StateView) -> Seq<char> {
    preamble(s) + encoding(s)
}

/// The owning message of `state`.
pub fn render_message(state: &RecruitmentState) -> (out: String)
    ensures
        out@ == message_body(state@),
{
    let mut chars: Vec<char> = Vec::new();
    push_text(&mut chars, "\nこのメッセージにリアクションをつけると ");
    push_text(&mut chars, state.activity_title.as_str());
    push_text(&mut chars, " に参加できます\n");
    let ghost head = chars@;
    push_text(&mut chars, "✋: 参加");
    if state.notify_on_join {
        push_text(&mut chars, "\n🤚: 参加通知なしで参加");
    }
    assert(chars@ =~= head + reaction_lines(state.notify_on_join));
    push_text(&mut chars, "\n人数が揃ったら開始通知が送られます\n");
    assert(chars@ =~= preamble(state@));
    let fragment = encode(state);
    push_text(&mut chars, fragment.as_str());
    string_of(&chars)
}

/// Where the creation of a recruitment stands: which answer it waits for.
#[derive(Clone, Copy, Debug, PartialEq, Eq, Structural)]
pub enum CommandPhase {
    /// The user is being told of a rejection.
    AwaitRejectionReplied,
    /// The role is being created.
    AwaitRole,
    /// The owning message is being posted.
    AwaitPosted,
    /// The notifying reaction is being put on the owning message.
    AwaitNotifyingAdded { posted: u64 },
    /// The silent reaction is being put on the owning message.
    AwaitSilentAdded,
    /// The user is being told that the message stands.
    AwaitConfirmed,
    /// Nothing is left to do.
    Finished,
}

/// The mathematical value of a `Command`.
pub struct CommandView {
    pub title: Seq<char>,
    pub required: u64,
    pub create_role: Option<bool>,
    pub auto_assign: Option<bool>,
    pub notify: Option<bool>,
    pub channel: u64,
    pub phase: CommandPhase,
}

impl CommandView {
    /// The same creation in another phase.
    pub open spec fn at(self, phase: CommandPhase) -> CommandView {
        CommandView { phase, ..self }
    }

    /// The recruitment to create, with the role `role`.
    pub open spec fn plan(self, role: Option<u64>) -> StateView {
        planned(self.title, self.required, self.create_role, self.auto_assign, self.notify, role)
    }
}

/// A creation that has not begun.
pub open spec fn fresh_command(
    title: Seq<char>,
    required: u64,
    create_role: Option<bool>,
    auto_assign: Option<bool>,
    notify: Option<bool>,
    channel: u64,
) -> CommandView {
    CommandView {
        title,
        required,
        create_role,
        auto_assign,
        notify,
        channel,
        phase: CommandPhase::Finished,
    }
}

/// The sentence that tells the user that the owning message stands.
pub open spec fn confirmation_text() -> Seq<char> {
    "募集メッセージを投稿しました"@
}

/// The owning message is posted.
pub open spec fn post_message(c: CommandView, role: Option<u64>) -> (CommandView, RequestView) {
    (
        c.at(CommandPhase::AwaitPosted),
        RequestView::Post { channel: c.channel, content: message_body(c.plan(role)) },
    )
}

/// The user is told of a rejection.
pub open spec fn reject(c: CommandView, rejection: Rejection) -> (CommandView, RequestView) {
    (
        c.at(CommandPhase::AwaitRejectionReplied),
        RequestView::Reply {
            content: rejection_text(rejection),
            only_to_user: is_private(rejection),
        },
    )
}

/// The user is told that the owning message stands.
pub open spec fn confirm(c: CommandView) -> (CommandView, RequestView) {
    (
        c.at(CommandPhase::AwaitConfirmed),
        RequestView::Reply { content: confirmation_text(), only_to_user: true },
    )
}

/// How the creation begins. Parameters that are rejected give the reply
/// that says so, and nothing else. A role that was chosen is taken; where
/// none was chosen and one is to be created, it is created in the guild of
/// the command, and the command is rejected outside any guild. Without a
/// role to wait for, the owning message is posted at once.
pub open spec fn begin_command(
    c: CommandView,
    mention_role: Option<u64>,
    guild: Option<u64>,
) -> (CommandView, RequestView) {
    match rejection_of(c.title, c.required, mention_role) {
        Some(rejection) => reject(c, rejection),
        None => if mention_role is Some {
            post_message(c, mention_role)
        } else if flag_or(c.create_role, false) {
            match guild {
                Some(g) => (
                    c.at(CommandPhase::AwaitRole),
                    RequestView::CreateRole { guild: g, name: c.title },
                ),
                None => reject(c, Rejection::NoGuild),
            }
        } else {
            post_message(c, None)
        },
    }
}

/// What follows an answer: the creation after it, and the next request.
/// Once the owning message stands it gets the notifying reaction, then the
/// silent one where joins are announced, and the user is told. An answer
/// that the phase does not wait for, and any failure, end the creation
/// with `Abort`.
pub open spec fn next_command(c: CommandView, r: ResponseView) -> (CommandView, RequestView) {
    match (c.phase, r) {
        (CommandPhase::Finished, _) => (c, RequestView::Finish),
        (CommandPhase::AwaitRejectionReplied, ResponseView::Done) => (
            c.at(CommandPhase::Finished),
            RequestView::Finish,
        ),
        (CommandPhase::AwaitRole, ResponseView::RoleCreated { role }) => if role != 0 {
            post_message(c, Some(role))
        } else {
            (c.at(CommandPhase::Finished), RequestView::Abort)
        },
        (CommandPhase::AwaitPosted, ResponseView::Posted { message }) => (
            c.at(CommandPhase::AwaitNotifyingAdded { posted: message }),
            RequestView::AddReaction {
                channel: c.channel,
                message,
                kind: ParticipationKind::Notifying,
            },
        ),
        (CommandPhase::AwaitNotifyingAdded { posted }, ResponseView::Done) => if flag_or(
            c.notify,
            true,
        ) {
            (
                c.at(CommandPhase::AwaitSilentAdded),
                RequestView::AddReaction {
                    channel: c.channel,
                    message: posted,
                    kind: ParticipationKind::Silent,
                },
            )
        } else {
            confirm(c)
        },
        (CommandPhase::AwaitSilentAdded, ResponseView::Done) => confirm(c),
        (CommandPhase::AwaitConfirmed, ResponseView::Done) => (
            c.at(CommandPhase::Finished),
            RequestView::Finish,
        ),
        _ => (c.at(CommandPhase::Finished), RequestView::Abort),
    }
}

/// The creation of one recruitment.
#[derive(Clone, Debug)]
pub struct Command {
    params: RecruitParams,
    channel: u64,
    phase: CommandPhase,
}

impl View for Command {
    type V = CommandView;

    closed spec fn view(&self) -> CommandView {
        CommandView {
            title: self.params.title@,
            required: self.params.required,
            create_role: self.params.create_role,
            auto_assign: self.params.auto_assign,
            notify: self.params.notify,
            channel: self.channel,
            phase: self.phase,
        }
    }
}

impl Command {
    /// Takes up the command with `params`, given in `channel` and, where
    /// the channel belongs to one, in `guild`.
    pub fn start(params: RecruitParams, channel: u64, guild: Option<u64>) -> (r: (Command, Request))
        ensures
            (r.0@, r.1@) == begin_command(
                fresh_command(
                    params.title@,
                    params.required,
                    params.create_role,
                    params.auto_assign,
                    params.notify,
                    channel,
                ),
                params.mention_role,
                guild,
            ),
    {
        let mention_role = params.mention_role;
        let mut c = Command { params, channel, phase: CommandPhase::Finished };
        let request = match check_params(c.params.title.as_str(), c.params.required, mention_role) {
            Some(rejection) => c.reject(rejection),
            None => {
                if mention_role.is_some() {
                    c.post_message(mention_role)
                } else if flag(c.params.create_role, false) {
                    match guild {
                        Some(g) => {
                            c.phase = CommandPhase::AwaitRole;
                            Request::CreateRole { guild: g, name: c.params.title.clone() }
                        },
                        None => c.reject(Rejection::NoGuild),
                    }
                } else {
                    c.post_message(None)
                }
            },
        };
        (c, request)
    }

    /// Where the creation stands.
    pub fn phase(&self) -> (p: CommandPhase)
        ensures
            p == self@.phase,
    {
        self.phase
    }

    fn reject(&mut self, rejection: Rejection) -> (request: Request)
        ensures
            (final(self)@, request@) == reject(old(self)@, rejection),
    {
        self.phase = CommandPhase::AwaitRejectionReplied;
        let only_to_user = match rejection {
            Rejection::NoGuild => true,
            _ => false,
        };
        Request::Reply { content: rejection_message(rejection), only_to_user }
    }

    fn post_message(&mut self, role: Option<u64>) -> (request: Request)
        ensures
            (final(self)@, request@) == post_message(old(self)@, role),
    {
        let state = plan_state(&self.params, role);
        self.phase = CommandPhase::AwaitPosted;
        Request::Post { channel: self.channel, content: render_message(&state) }
    }

    fn confirm(&mut self) -> (request: Request)
        ensures
            (final(self)@, request@) == confirm(old(self)@),
    {
        self.phase = CommandPhase::AwaitConfirmed;
        let chars = chars_of("募集メッセージを投稿しました");
        Request::Reply { content: string_of(&chars), only_to_user: true }
    }

    fn end(&mut self, failed: bool) -> (request: Request)
        ensures
            final(self)@ == old(self)@.at(CommandPhase::Finished),
            request@ == (if failed {
                RequestView::Abort
            } else {
                RequestView::Finish
            }),
    {
        self.phase = CommandPhase::Finished;
        if failed {
            Request::Abort
        } else {
            Request::Finish
        }
    }

    /// Takes the answer to the last request and says what comes next.
    pub fn step(&mut self, response: Response) -> (request: Request)
        ensures
            (final(self)@, request@) == next_command(old(self)@, response@),
    {
        match (self.phase, response) {
            (CommandPhase::Finished, _) => Request::Finish,
            (CommandPhase::AwaitRejectionReplied, Response::Done) => self.end(false),
            (CommandPhase::AwaitRole, Response::RoleCreated { role }) => {
                if role != 0 {
                    self.post_message(Some(role))
                } else {
                    self.end(true)
                }
            },
            (CommandPhase::AwaitPosted, Response::Posted { message }) => {
                self.phase = CommandPhase::AwaitNotifyingAdded { posted: message };
                Request::AddReaction {
                    channel: self.channel,
                    message,
                    kind: ParticipationKind::Notifying,
                }
            },
            (CommandPhase::AwaitNotifyingAdded { posted }, Response::Done) => {
                if flag(self.params.notify, true) {
                    self.phase = CommandPhase::AwaitSilentAdded;
                    Request::AddReaction {
                        channel: self.channel,
                        message: posted,
                        kind: ParticipationKind::Silent,
                    }
                } else {
                    self.confirm()
                }
            },
            (CommandPhase::AwaitSilentAdded, Response::Done) => self.confirm(),
            (CommandPhase::AwaitConfirmed, Response::Done) => self.end(false),
            _ => self.end(true),
        }
    }
}

/// The owning message of a recruitment that the command creates decodes to
/// that recruitment. Parameters that are not rejected give a valid
/// recruitment, whichever role comes with them, and no opening marker
/// stands before its fragment; so decoding the message gives the
/// recruitment back wherever the reader of documents reads its lines as the
/// entries that they spell out.
pub proof fn lemma_created_message_decodes(c: CommandView, role: Option<u64>)
    requires
        rejection_of(c.title, c.required, role) is None,
    ensures
        valid(c.plan(role)),
        find_from(preamble(c.plan(role)), open_marker(), 0) is None,
        lines_read_as_written(c.plan(role)) ==> decoding(message_body(c.plan(role))) == Ok::<
            StateView,
            DecodeError,
        >(c.plan(role)),
{
    let s = c.plan(role);
    let head = "\nこのメッセージにリアクションをつけると "@;
    let tail = " に参加できます\n"@ + reaction_lines(s.notify_on_join)
        + "\n人数が揃ったら開始通知が送られます\n"@;
    reveal_strlit("\nこのメッセージにリアクションをつけると ");
    reveal_strlit(" に参加できます\n");
    reveal_strlit("✋: 参加");
    reveal_strlit("\n🤚: 参加通知なしで参加");
    reveal_strlit("\n人数が揃ったら開始通知が送られます\n");
    assert(no_backtick(head));
    assert(no_backtick(" に参加できます\n"@));
    assert(no_backtick("✋: 参加"@));
    assert(no_backtick("\n🤚: 参加通知なしで参加"@));
    assert(no_backtick("\n人数が揃ったら開始通知が送られます\n"@));
    assert(no_backtick(reaction_lines(s.notify_on_join))) by {
        lemma_no_backtick_concat("✋: 参加"@, "\n🤚: 参加通知なしで参加"@);
    }
    lemma_no_backtick_concat(" に参加できます\n"@, reaction_lines(s.notify_on_join));
    lemma_no_backtick_concat(
        " に参加できます\n"@ + reaction_lines(s.notify_on_join),
        "\n人数が揃ったら開始通知が送られます\n"@,
    );
    assert(tail[0] == ' ');
    lemma_no_marker_between(head, s.activity_title, tail);
    assert(head + s.activity_title + tail =~= preamble(s));
    lemma_decode_of_encoding(s, preamble(s), Seq::empty());
    assert(preamble(s) + encoding(s) + Seq::<char>::empty() =~= message_body(s));
}

} // verus!
