//! The event classifier: which reactions signal participation, and which
//! events concern a recruitment at all.

use crate::fragment::{has_open_marker, open_marker};
use crate::text::{chars_of, find_from, string_of};
use vstd::prelude::*;

verus! {

/// How a participant joined: with or without a per-join announcement.
#[derive(Clone, Copy, Debug, PartialEq, Eq, Structural)]
pub enum ParticipationKind {
    /// The raised hand: joining is announced where the recruitment asks for
    /// it.
    Notifying,
    /// The raised back of the hand: joining is never announced.
    Silent,
}

/// What a reaction shows.
#[derive(Clone, Debug, PartialEq, Eq)]
pub enum Reaction {
    /// A Unicode emoji, as text.
    Unicode(String),
    /// An emoji that a guild defined, by its identifier.
    Custom(u64),
}

/// The mathematical value of a `Reaction`.
pub enum ReactionView {
    Unicode(Seq<char>),
    Custom(u64),
}

impl View for Reaction {
    type V = ReactionView;

    open spec fn view(&self) -> ReactionView {
        match self {
            Reaction::Unicode(text) => ReactionView::Unicode(text@),
            Reaction::Custom(id) => ReactionView::Custom(*id),
        }
    }
}

/// A reaction that was added to a message.
#[derive(Clone, Debug, PartialEq, Eq)]
pub struct ReactionEvent {
    /// The actor who reacted, where the platform names one.
    pub actor: Option<u64>,
    /// What the reaction shows.
    pub reaction: Reaction,
    /// The channel of the message.
    pub channel: u64,
    /// The message that was reacted to.
    pub message: u64,
    /// The guild of the channel, if it belongs to one.
    pub guild: Option<u64>,
}

/// The emoji of a participation kind.
pub open spec fn emoji_of(kind: ParticipationKind) -> Seq<char> {
    match kind {
        ParticipationKind::Notifying => seq!['\u{270B}'],
        ParticipationKind::Silent => seq!['\u{1F91A}'],
    }
}

/// The participation kind that an emoji signals, if any.
pub open spec fn kind_of_emoji(emoji: Seq<char>) -> Option<ParticipationKind> {
    if emoji == emoji_of(ParticipationKind::Notifying) {
        Some(ParticipationKind::Notifying)
    } else if emoji == emoji_of(ParticipationKind::Silent) {
        Some(ParticipationKind::Silent)
    } else {
        None
    }
}

/// The participation kind that a reaction signals: that of its emoji where
/// it shows a Unicode emoji, none where it shows a custom one.
pub open spec fn kind_of(reaction: ReactionView) -> Option<ParticipationKind> {
    match reaction {
        ReactionView::Unicode(text) => kind_of_emoji(text),
        ReactionView::Custom(_) => None,
    }
}

/// The participation kind of an event that concerns recruitments: one whose
/// reaction signals participation and whose actor is not the system itself.
pub open spec fn classification(
    actor: Option<u64>,
    reaction: ReactionView,
    own: u64,
) -> Option<ParticipationKind> {
    if actor == Some(own) {
        None
    } else {
        kind_of(reaction)
    }
}

impl ParticipationKind {
    /// The emoji that signals this kind.
    pub fn emoji(&self) -> (out: String)
        ensures
            out@ == emoji_of(*self),
    {
        let mut chars: Vec<char> = Vec::new();
        match self {
            ParticipationKind::Notifying => chars.push('\u{270B}'),
            ParticipationKind::Silent => chars.push('\u{1F91A}'),
        }
        assert(chars@ =~= emoji_of(*self));
        string_of(&chars)
    }

    /// Whether a join of this kind is announced where the recruitment asks
    /// for announcements.
    pub fn is_notifying(&self) -> (r: bool)
        ensures
            r == (*self == ParticipationKind::Notifying),
    {
        match self {
            ParticipationKind::Notifying => true,
            ParticipationKind::Silent => false,
        }
    }
}

/// The participation kind that `emoji` signals, if any.
pub fn classify_emoji(emoji: &str) -> (r: Option<ParticipationKind>)
    ensures
        r == kind_of_emoji(emoji@),
{
    let chars = chars_of(emoji);
    if chars.len() == 1 && chars[0] == '\u{270B}' {
        assert(chars@ =~= emoji_of(ParticipationKind::Notifying));
        Some(ParticipationKind::Notifying)
    } else if chars.len() == 1 && chars[0] == '\u{1F91A}' {
        assert(chars@ =~= emoji_of(ParticipationKind::Silent));
        Some(ParticipationKind::Silent)
    } else {
        assert(emoji_of(ParticipationKind::Notifying).len() == 1);
        assert(emoji_of(ParticipationKind::Silent).len() == 1);
        assert(emoji_of(ParticipationKind::Notifying)[0] == '\u{270B}');
        assert(emoji_of(ParticipationKind::Silent)[0] == '\u{1F91A}');
        None
    }
}

/// The participation kind of `event`, where it concerns recruitments: its
/// reaction signals participation and its actor is not `own`, the system's
/// own actor.
pub fn classify(event: &ReactionEvent, own: u64) -> (r: Option<ParticipationKind>)
    ensures
        r == classification(event.actor, event.reaction@, own),
{
    let own_reaction = match event.actor {
        Some(actor) => actor == own,
        None => false,
    };
    if own_reaction {
        return None;
    }
    match &event.reaction {
        Reaction::Unicode(text) => classify_emoji(text.as_str()),
        Reaction::Custom(_) => None,
    }
}

/// Whether a message carries a recruitment of this system: the system wrote
/// it, and it holds an opening marker.
pub open spec fn carries_recruitment(author: u64, own: u64, content: Seq<char>) -> bool {
    author == own && find_from(content, open_marker(), 0) is Some
}

/// Whether the message with this author and content carries a recruitment
/// of the system whose own actor is `own`.
pub fn is_owning_message(author: u64, own: u64, content: &str) -> (r: bool)
    ensures
        r == carries_recruitment(author, own, content@),
{
    author == own && has_open_marker(content)
}

} // verus!
