//! The texts that the system posts: mentions, the per-join announcement,
//! the start announcement and the two error messages.

use crate::numeral::{decimal_digits, push_decimal};
use crate::text::{push_text, string_of};
use vstd::prelude::*;

verus! {

/// The mention of a user: `<@`, the identifier in decimal, `>`.
pub open spec fn user_mention_text(id: u64) -> Seq<char> {
    "<@"@ + decimal_digits(id as nat) + ">"@
}

/// The mention of a role: `<@&`, the identifier in decimal, `>`.
pub open spec fn role_mention_text(id: u64) -> Seq<char> {
    "<@&"@ + decimal_digits(id as nat) + ">"@
}

/// The mention of the acting user, where the event names one.
pub open spec fn actor_text(actor: Option<u64>) -> Seq<char> {
    match actor {
        Some(id) => user_mention_text(id),
        None => Seq::empty(),
    }
}

/// The message for a fragment that cannot be read: the acting user, then
/// one fixed sentence.
pub open spec fn decode_error_text(actor: Option<u64>) -> Seq<char> {
    actor_text(actor) + "募集設定の読み取りに失敗しました。募集メッセージを作り直してください。"@
}

/// The message for a grant that failed: the acting user and a space, where
/// the event names one, then one fixed sentence.
pub open spec fn grant_error_text(actor: Option<u64>) -> Seq<char> {
    match actor {
        Some(id) => user_mention_text(id) + " "@
            + "ロールの付与に失敗しました。権限を確認してください。"@,
        None => "ロールの付与に失敗しました。権限を確認してください。"@,
    }
}

/// The per-join announcement: who joined what.
pub open spec fn join_notice_text(actor: u64, title: Seq<char>) -> Seq<char> {
    user_mention_text(actor) + " が "@ + title + " に参加しました"@
}

/// The mentions of `ids`, in order, with one space between neighbours.
pub open spec fn mentions_text(ids: Seq<u64>) -> Seq<char>
    decreases ids.len(),
{
    if ids.len() == 0 {
        Seq::empty()
    } else if ids.len() == 1 {
        user_mention_text(ids[0])
    } else {
        mentions_text(ids.drop_last()) + " "@ + user_mention_text(ids.last())
    }
}

/// The line that mentions the role of a recruitment, where it has one.
pub open spec fn target_mention_line(target: Option<u64>) -> Seq<char> {
    match target {
        Some(id) => role_mention_text(id) + "\n"@,
        None => Seq::empty(),
    }
}

/// The start announcement: the role on a line of its own, where there is
/// one, then every participant and the activity.
pub open spec fn start_text(target: Option<u64>, participants: Seq<u64>, title: Seq<char>) -> Seq<
    char,
> {
    target_mention_line(target) + mentions_text(participants) + " が "@ + title
        + " を開始します"@
}

fn push_user_mention(out: &mut Vec<char>, id: u64)
    ensures
        final(out)@ == old(out)@ + user_mention_text(id),
{
    push_text(out, "<@");
    push_decimal(out, id);
    push_text(out, ">");
    assert(out@ =~= old(out)@ + user_mention_text(id));
}

/// The mention of the user `id`.
pub fn user_mention(id: u64) -> (out: String)
    ensures
        out@ == user_mention_text(id),
{
    let mut chars: Vec<char> = Vec::new();
    push_user_mention(&mut chars, id);
    assert(chars@ =~= user_mention_text(id));
    string_of(&chars)
}

/// The mention of the role `id`.
pub fn role_mention(id: u64) -> (out: String)
    ensures
        out@ == role_mention_text(id),
{
    let mut chars: Vec<char> = Vec::new();
    push_text(&mut chars, "<@&");
    push_decimal(&mut chars, id);
    push_text(&mut chars, ">");
    assert(chars@ =~= role_mention_text(id));
    string_of(&chars)
}

/// The message for a fragment that cannot be read.
pub fn decode_error_message(actor: Option<u64>) -> (out: String)
    ensures
        out@ == decode_error_text(actor),
{
    let mut chars: Vec<char> = Vec::new();
    match actor {
        Some(id) => push_user_mention(&mut chars, id),
        None => {},
    }
    assert(chars@ =~= actor_text(actor));
    push_text(
        &mut chars,
        "募集設定の読み取りに失敗しました。募集メッセージを作り直してください。",
    );
    string_of(&chars)
}

/// The message for a grant that failed.
pub fn grant_error_message(actor: Option<u64>) -> (out: String)
    ensures
        out@ == grant_error_text(actor),
{
    let mut chars: Vec<char> = Vec::new();
    match actor {
        Some(id) => {
            push_user_mention(&mut chars, id);
            push_text(&mut chars, " ");
        },
        None => {},
    }
    push_text(&mut chars, "ロールの付与に失敗しました。権限を確認してください。");
    assert(chars@ =~= grant_error_text(actor));
    string_of(&chars)
}

/// The per-join announcement for `actor` and the activity `title`.
pub fn join_notice(actor: u64, title: &str) -> (out: String)
    ensures
        out@ == join_notice_text(actor, title@),
{
    let mut chars: Vec<char> = Vec::new();
    push_user_mention(&mut chars, actor);
    push_text(&mut chars, " が ");
    push_text(&mut chars, title);
    push_text(&mut chars, " に参加しました");
    assert(chars@ =~= join_notice_text(actor, title@));
    string_of(&chars)
}

/// The start announcement for the activity `title`: the role `target`,
/// where there is one, and the participants in the order given.
pub fn start_announcement(target: Option<u64>, participants: &Vec<u64>, title: &str) -> (out:
    String)
    ensures
        out@ == start_text(target, participants@, title@),
{
    let mut chars: Vec<char> = Vec::new();
    match target {
        Some(id) => {
            push_text(&mut chars, "<@&");
            push_decimal(&mut chars, id);
            push_text(&mut chars, ">");
            push_text(&mut chars, "\n");
        },
        None => {},
    }
    assert(chars@ =~= target_mention_line(target));
    let ghost head = chars@;
    let mut i: usize = 0;
    assert(participants@.take(0) =~= Seq::<u64>::empty());
    while i < participants.len()
        invariant
            i <= participants.len(),
            chars@ == head + mentions_text(participants@.take(i as int)),
        decreases participants.len() - i,
    {
        proof {
            assert(participants@.take(i + 1).drop_last() =~= participants@.take(i as int));
            assert(participants@.take(i + 1).last() == participants@[i as int]);
            assert(participants@.take(i + 1)[0] == participants@[0]);
        }
        if i > 0 {
            push_text(&mut chars, " ");
        }
        push_user_mention(&mut chars, participants[i]);
        i += 1;
        assert(chars@ =~= head + mentions_text(participants@.take(i as int)));
    }
    assert(participants@.take(participants.len() as int) =~= participants@);
    push_text(&mut chars, " が ");
    push_text(&mut chars, title);
    push_text(&mut chars, " を開始します");
    assert(chars@ =~= start_text(target, participants@, title@));
    string_of(&chars)
}

} // verus!
