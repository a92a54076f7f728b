use recruitment::codec::decode;
use recruitment::command::{
    check_params, plan_state, rejection_message, render_message, Command, CommandPhase,
    RecruitParams, Rejection,
};
use recruitment::kind::ParticipationKind;
use recruitment::platform::{Request, Response};
use recruitment::state::RecruitmentState;

fn params(title: &str, required: u64) -> RecruitParams {
    RecruitParams {
        title: title.to_string(),
        required,
        mention_role: None,
        create_role: None,
        auto_assign: None,
        notify: None,
    }
}

fn reply(content: &str, only_to_user: bool) -> Request {
    Request::Reply { content: content.to_string(), only_to_user }
}

#[test]
fn zero_participants_are_rejected() {
    assert_eq!(check_params("x", 0, None), Some(Rejection::ZeroParticipants));
    let (mut command, first) = Command::start(params("x", 0), 1, Some(2));
    assert_eq!(first, reply("required_players は 1 以上を指定してください。", false));
    assert_eq!(command.phase(), CommandPhase::AwaitRejectionReplied);
    assert_eq!(command.step(Response::Done), Request::Finish);
    assert_eq!(command.phase(), CommandPhase::Finished);
}

#[test]
fn counts_beyond_the_fragments_integers_are_rejected() {
    assert_eq!(check_params("x", 9223372036854775807, None), None);
    assert_eq!(check_params("x", 9223372036854775808, None), Some(Rejection::TooManyParticipants));
}

#[test]
fn titles_without_text_or_with_a_marker_are_rejected() {
    assert_eq!(check_params("", 1, None), Some(Rejection::EmptyTitle));
    assert_eq!(check_params("a ```toml b", 1, None), Some(Rejection::MarkerInTitle));
    assert_eq!(check_params("a ``` toml b", 1, None), None);
    assert_eq!(check_params("", 0, Some(0)), Some(Rejection::ZeroParticipants));
}

#[test]
fn a_role_with_the_identifier_zero_is_rejected() {
    assert_eq!(check_params("x", 1, Some(0)), Some(Rejection::InvalidRole));
    assert_eq!(check_params("x", 1, Some(1)), None);
}

#[test]
fn every_rejection_has_its_sentence() {
    assert_eq!(
        rejection_message(Rejection::ZeroParticipants),
        "required_players は 1 以上を指定してください。"
    );
    assert_eq!(rejection_message(Rejection::NoGuild), "サーバー内でのみロールを作成できます。");
    assert_ne!(
        rejection_message(Rejection::TooManyParticipants),
        rejection_message(Rejection::EmptyTitle)
    );
    assert_ne!(
        rejection_message(Rejection::MarkerInTitle),
        rejection_message(Rejection::InvalidRole)
    );
}

#[test]
fn the_plan_takes_the_defaults() {
    let state = plan_state(&params("Raid Night", 4), None);
    assert_eq!(
        state,
        RecruitmentState {
            activity_title: "Raid Night".to_string(),
            required_participants: 4,
            mention_target: None,
            notify_on_join: true,
            auto_assign_on_join: false,
        }
    );
}

#[test]
fn the_plan_grants_a_created_role_by_default() {
    let mut p = params("Raid Night", 4);
    p.create_role = Some(true);
    assert!(plan_state(&p, Some(8)).auto_assign_on_join);
    p.auto_assign = Some(false);
    assert!(!plan_state(&p, Some(8)).auto_assign_on_join);
}

#[test]
fn the_plan_never_grants_without_a_role() {
    let mut p = params("Raid Night", 4);
    p.auto_assign = Some(true);
    assert!(!plan_state(&p, None).auto_assign_on_join);
    assert!(plan_state(&p, Some(3)).auto_assign_on_join);
}

#[test]
fn the_owning_message_holds_words_and_fragment() {
    let state = plan_state(&params("Raid Night", 2), None);
    assert_eq!(
        render_message(&state),
        "\nこのメッセージにリアクションをつけると Raid Night に参加できます\n✋: 参加\n🤚: 参加通知なしで参加\n人数が揃ったら開始通知が送られます\n```toml\ngame_title = \"Raid Night\"\nrequired_players = 2\n```"
    );
}

#[test]
fn the_owning_message_without_announcements_shows_one_reaction() {
    let mut p = params("Raid Night", 2);
    p.notify = Some(false);
    let state = plan_state(&p, Some(77));
    assert_eq!(
        render_message(&state),
        "\nこのメッセージにリアクションをつけると Raid Night に参加できます\n✋: 参加\n人数が揃ったら開始通知が送られます\n```toml\ngame_title = \"Raid Night\"\nrequired_players = 2\nmention_role = 77\nnotify_on_reaction = false\n```"
    );
}

#[test]
fn the_owning_message_decodes_to_its_state() {
    let mut p = params("バックティック ` と ``` と \"引用\"", 3);
    p.auto_assign = Some(true);
    let state = plan_state(&p, Some(1234));
    assert_eq!(decode(&render_message(&state)), Ok(state));
}

#[test]
fn a_chosen_role_is_taken_and_the_message_posted() {
    let mut p = params("Raid Night", 2);
    p.mention_role = Some(77);
    p.create_role = Some(true);
    p.notify = Some(false);
    let expected = render_message(&plan_state(&p, Some(77)));
    let (mut command, first) = Command::start(p, 10, Some(30));
    assert_eq!(first, Request::Post { channel: 10, content: expected });
    assert_eq!(
        command.step(Response::Posted { message: 20 }),
        Request::AddReaction { channel: 10, message: 20, kind: ParticipationKind::Notifying }
    );
    assert_eq!(command.step(Response::Done), reply("募集メッセージを投稿しました", true));
    assert_eq!(command.step(Response::Done), Request::Finish);
}

#[test]
fn a_role_is_created_where_none_was_chosen() {
    let mut p = params("Raid Night", 2);
    p.create_role = Some(true);
    let expected = render_message(&plan_state(&p, Some(88)));
    let (mut command, first) = Command::start(p, 10, Some(30));
    assert_eq!(first, Request::CreateRole { guild: 30, name: "Raid Night".to_string() });
    assert_eq!(
        command.step(Response::RoleCreated { role: 88 }),
        Request::Post { channel: 10, content: expected.clone() }
    );
    assert!(expected.contains("mention_role = 88"));
    assert!(expected.contains("auto_assign_role_on_reaction = true"));
}

#[test]
fn no_role_is_created_outside_a_guild() {
    let mut p = params("Raid Night", 2);
    p.create_role = Some(true);
    let (mut command, first) = Command::start(p, 10, None);
    assert_eq!(first, reply("サーバー内でのみロールを作成できます。", true));
    assert_eq!(command.step(Response::Done), Request::Finish);
}

#[test]
fn a_failure_aborts_the_creation() {
    let (mut command, _) = Command::start(params("Raid Night", 2), 10, None);
    assert_eq!(command.step(Response::Failed), Request::Abort);
    assert_eq!(command.phase(), CommandPhase::Finished);
    assert_eq!(command.step(Response::Done), Request::Finish);

    let mut p = params("Raid Night", 2);
    p.create_role = Some(true);
    let (mut creating, _) = Command::start(p, 10, Some(30));
    assert_eq!(creating.step(Response::RoleCreated { role: 0 }), Request::Abort);
}
