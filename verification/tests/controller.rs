use recruitment::cleanup::{CleanupAction, CLEANUP_DELAY_SECONDS};
use recruitment::codec::encode;
use recruitment::command::{render_message, Command, RecruitParams};
use recruitment::controller::{Handler, Phase};
use recruitment::kind::{ParticipationKind, Reaction, ReactionEvent};
use recruitment::participants::Reactor;
use recruitment::platform::{Request, Response};
use recruitment::state::RecruitmentState;

const OWN: u64 = 999;
const CHANNEL: u64 = 10;
const MESSAGE: u64 = 20;
const GUILD: u64 = 30;
const A: u64 = 101;
const B: u64 = 102;
const C: u64 = 103;

/// A chat platform that lives in memory.
struct Platform {
    author: u64,
    content: String,
    notifying: Vec<Reactor>,
    silent: Vec<Reactor>,
    roles: Vec<u64>,
    grant_fails: bool,
    member_fails: bool,
    next_message: u64,
    log: Vec<Request>,
}

fn platform(content: String) -> Platform {
    Platform {
        author: OWN,
        content,
        notifying: vec![Reactor { id: OWN, bot: true }],
        silent: vec![Reactor { id: OWN, bot: true }],
        roles: Vec::new(),
        grant_fails: false,
        member_fails: false,
        next_message: 500,
        log: Vec::new(),
    }
}

fn page(all: &[Reactor], after: Option<u64>, limit: usize) -> Vec<Reactor> {
    let start = match after {
        Some(id) => all.iter().position(|r| r.id == id).map(|i| i + 1).unwrap_or(all.len()),
        None => 0,
    };
    all[start..].iter().take(limit).copied().collect()
}

fn answer(p: &mut Platform, request: &Request) -> Response {
    match request {
        Request::FetchMessage { .. } => {
            Response::Message { author: p.author, content: p.content.clone() }
        }
        Request::Post { .. } => {
            p.next_message += 1;
            Response::Posted { message: p.next_message }
        }
        Request::FetchMember { .. } => {
            if p.member_fails {
                Response::Failed
            } else {
                Response::Member { roles: p.roles.clone() }
            }
        }
        Request::GrantRole { role, .. } => {
            if p.grant_fails {
                Response::Failed
            } else {
                p.roles.push(*role);
                Response::Done
            }
        }
        Request::FetchReactors { kind, after, limit, .. } => match kind {
            ParticipationKind::Notifying => Response::Reactors { page: page(&p.notifying, *after, *limit) },
            ParticipationKind::Silent => Response::Reactors { page: page(&p.silent, *after, *limit) },
        },
        Request::ClearReactions { kind, .. } => {
            match kind {
                ParticipationKind::Notifying => p.notifying.clear(),
                ParticipationKind::Silent => p.silent.clear(),
            }
            Response::Done
        }
        Request::AddReaction { kind, .. } => {
            match kind {
                ParticipationKind::Notifying => p.notifying.push(Reactor { id: OWN, bot: true }),
                ParticipationKind::Silent => p.silent.push(Reactor { id: OWN, bot: true }),
            }
            Response::Done
        }
        _ => Response::Done,
    }
}

fn event(actor: u64, kind: ParticipationKind) -> ReactionEvent {
    ReactionEvent {
        actor: Some(actor),
        reaction: Reaction::Unicode(kind.emoji()),
        channel: CHANNEL,
        message: MESSAGE,
        guild: Some(GUILD),
    }
}

/// Handles one event against the platform; gives the requests made and the
/// request that ended the handling.
fn handle(p: &mut Platform, event: &ReactionEvent) -> (Vec<Request>, Option<Request>) {
    let mut made = Vec::new();
    let (mut handler, mut request) = match Handler::start(OWN, event) {
        Some(started) => started,
        None => return (made, None),
    };
    for _ in 0..1000 {
        match request {
            Request::Finish | Request::Abort => {
                assert!(handler.is_finished());
                return (made, Some(request));
            }
            _ => {}
        }
        let response = answer(p, &request);
        p.log.push(request.clone());
        made.push(request);
        request = handler.step(response);
    }
    panic!("the handling did not end");
}

fn react(p: &mut Platform, actor: u64, kind: ParticipationKind) -> (Vec<Request>, Option<Request>) {
    let reactor = Reactor { id: actor, bot: false };
    match kind {
        ParticipationKind::Notifying => p.notifying.push(reactor),
        ParticipationKind::Silent => p.silent.push(reactor),
    }
    handle(p, &event(actor, kind))
}

fn state(title: &str, required: u64, target: Option<u64>, notify: bool, auto: bool) -> RecruitmentState {
    RecruitmentState {
        activity_title: title.to_string(),
        required_participants: required,
        mention_target: target,
        notify_on_join: notify,
        auto_assign_on_join: auto,
    }
}

fn posts(made: &[Request]) -> Vec<String> {
    made.iter()
        .filter_map(|r| match r {
            Request::Post { content, .. } => Some(content.clone()),
            _ => None,
        })
        .collect()
}

fn fetch(kind: ParticipationKind, after: Option<u64>) -> Request {
    Request::FetchReactors { channel: CHANNEL, message: MESSAGE, kind, after, limit: 100 }
}

fn delete_later(message: u64) -> Request {
    Request::Schedule {
        delay_seconds: 3600,
        action: CleanupAction::DeleteMessage { channel: CHANNEL, message },
    }
}

#[test]
fn raid_night_for_two_starts_with_the_second_participant() {
    let params = RecruitParams {
        title: "Raid Night".to_string(),
        required: 2,
        mention_role: None,
        create_role: None,
        auto_assign: None,
        notify: None,
    };
    let (mut command, first) = Command::start(params, CHANNEL, Some(GUILD));
    let body = match first {
        Request::Post { channel, content } => {
            assert_eq!(channel, CHANNEL);
            content
        }
        other => panic!("unexpected request {:?}", other),
    };
    assert_eq!(
        command.step(Response::Posted { message: MESSAGE }),
        Request::AddReaction { channel: CHANNEL, message: MESSAGE, kind: ParticipationKind::Notifying }
    );
    assert_eq!(
        command.step(Response::Done),
        Request::AddReaction { channel: CHANNEL, message: MESSAGE, kind: ParticipationKind::Silent }
    );
    assert_eq!(
        command.step(Response::Done),
        Request::Reply { content: "募集メッセージを投稿しました".to_string(), only_to_user: true }
    );
    assert_eq!(command.step(Response::Done), Request::Finish);

    let mut p = platform(body);

    // A joins with the notifying kind: announced, no start
    let (made, end) = react(&mut p, A, ParticipationKind::Notifying);
    assert_eq!(end, Some(Request::Finish));
    assert_eq!(
        made,
        vec![
            Request::FetchMessage { channel: CHANNEL, message: MESSAGE },
            Request::Post { channel: CHANNEL, content: "<@101> が Raid Night に参加しました".to_string() },
            delete_later(501),
            fetch(ParticipationKind::Notifying, None),
            fetch(ParticipationKind::Silent, None),
        ]
    );

    // B joins with the silent kind: not announced, quorum, start
    let (made, end) = react(&mut p, B, ParticipationKind::Silent);
    assert_eq!(end, Some(Request::Finish));
    assert_eq!(
        made,
        vec![
            Request::FetchMessage { channel: CHANNEL, message: MESSAGE },
            fetch(ParticipationKind::Notifying, None),
            fetch(ParticipationKind::Silent, None),
            Request::Post {
                channel: CHANNEL,
                content: "<@101> <@102> が Raid Night を開始します".to_string()
            },
            delete_later(502),
            Request::ClearReactions { channel: CHANNEL, message: MESSAGE, kind: ParticipationKind::Notifying },
            Request::ClearReactions { channel: CHANNEL, message: MESSAGE, kind: ParticipationKind::Silent },
            Request::AddReaction { channel: CHANNEL, message: MESSAGE, kind: ParticipationKind::Notifying },
            Request::AddReaction { channel: CHANNEL, message: MESSAGE, kind: ParticipationKind::Silent },
        ]
    );
    // the reactions are back at the baseline
    assert_eq!(p.notifying, vec![Reactor { id: OWN, bot: true }]);
    assert_eq!(p.silent, vec![Reactor { id: OWN, bot: true }]);
}

#[test]
fn a_fragment_without_a_title_gets_the_error_message_and_nothing_else() {
    let mut p = platform("```toml\nrequired_players = 2\n```".to_string());
    let (made, end) = react(&mut p, A, ParticipationKind::Notifying);
    assert_eq!(end, Some(Request::Finish));
    assert_eq!(
        made,
        vec![
            Request::FetchMessage { channel: CHANNEL, message: MESSAGE },
            Request::Post {
                channel: CHANNEL,
                content: "<@101>募集設定の読み取りに失敗しました。募集メッセージを作り直してください。"
                    .to_string()
            },
        ]
    );
}

#[test]
fn a_fragment_with_zero_participants_gets_the_error_message() {
    let mut p = platform("```toml\ngame_title = \"x\"\nrequired_players = 0\n```".to_string());
    let (made, _) = react(&mut p, A, ParticipationKind::Silent);
    assert_eq!(made.len(), 2);
    assert_eq!(
        posts(&made),
        vec!["<@101>募集設定の読み取りに失敗しました。募集メッセージを作り直してください。".to_string()]
    );
}

#[test]
fn an_opening_marker_without_a_closing_one_gets_the_error_message() {
    let mut p = platform("```toml\ngame_title = \"x\"\nrequired_players = 1\n".to_string());
    let (made, _) = react(&mut p, A, ParticipationKind::Silent);
    assert_eq!(posts(&made).len(), 1);
    assert_eq!(made.len(), 2);
}

#[test]
fn the_error_message_names_nobody_without_an_actor() {
    let mut p = platform("```toml\nrequired_players = 2\n```".to_string());
    let mut e = event(A, ParticipationKind::Notifying);
    e.actor = None;
    let (made, _) = handle(&mut p, &e);
    assert_eq!(
        posts(&made),
        vec!["募集設定の読み取りに失敗しました。募集メッセージを作り直してください。".to_string()]
    );
}

#[test]
fn other_reactions_are_dropped() {
    let e = ReactionEvent {
        actor: Some(A),
        reaction: Reaction::Unicode("👍".to_string()),
        channel: CHANNEL,
        message: MESSAGE,
        guild: None,
    };
    assert!(Handler::start(OWN, &e).is_none());
    let custom = ReactionEvent { reaction: Reaction::Custom(5), ..e };
    assert!(Handler::start(OWN, &custom).is_none());
}

#[test]
fn the_systems_own_reactions_are_dropped() {
    assert!(Handler::start(OWN, &event(OWN, ParticipationKind::Notifying)).is_none());
    assert!(Handler::start(OWN, &event(OWN, ParticipationKind::Silent)).is_none());
}

#[test]
fn messages_of_other_authors_are_not_touched() {
    let mut p = platform(encode(&state("x", 1, None, true, false)));
    p.author = 12345;
    let (made, end) = react(&mut p, A, ParticipationKind::Notifying);
    assert_eq!(end, Some(Request::Finish));
    assert_eq!(made, vec![Request::FetchMessage { channel: CHANNEL, message: MESSAGE }]);
}

#[test]
fn messages_without_a_fragment_are_not_touched() {
    let mut p = platform("just words".to_string());
    let (made, end) = react(&mut p, A, ParticipationKind::Notifying);
    assert_eq!(end, Some(Request::Finish));
    assert_eq!(made.len(), 1);
}

#[test]
fn a_failed_fetch_aborts() {
    let (mut handler, _) = Handler::start(OWN, &event(A, ParticipationKind::Notifying)).unwrap();
    assert_eq!(handler.phase(), Phase::AwaitMessage);
    assert_eq!(handler.step(Response::Failed), Request::Abort);
    assert!(handler.is_finished());
    assert_eq!(handler.step(Response::Done), Request::Finish);
}

#[test]
fn an_answer_out_of_turn_aborts() {
    let (mut handler, _) = Handler::start(OWN, &event(A, ParticipationKind::Notifying)).unwrap();
    assert_eq!(handler.step(Response::Posted { message: 1 }), Request::Abort);
}

#[test]
fn quorum_of_three_is_not_met_by_two() {
    let mut p = platform(render_message(&state("Raid Night", 3, None, true, false)));
    let (made, _) = react(&mut p, A, ParticipationKind::Silent);
    assert!(posts(&made).is_empty());
    let (made, end) = react(&mut p, B, ParticipationKind::Silent);
    assert_eq!(end, Some(Request::Finish));
    assert!(posts(&made).is_empty());
    assert_eq!(p.silent.len(), 3);
}

#[test]
fn quorum_of_three_is_met_by_three_and_by_more() {
    let mut p = platform(render_message(&state("Raid Night", 3, None, false, false)));
    p.notifying.push(Reactor { id: A, bot: false });
    p.notifying.push(Reactor { id: B, bot: false });
    p.silent.push(Reactor { id: C, bot: false });
    let (made, end) = react(&mut p, 104, ParticipationKind::Notifying);
    assert_eq!(end, Some(Request::Finish));
    assert_eq!(
        posts(&made),
        vec!["<@101> <@102> <@104> <@103> が Raid Night を開始します".to_string()]
    );
    // joins are not announced here, so only the notifying reaction comes back
    assert_eq!(p.notifying, vec![Reactor { id: OWN, bot: true }]);
    assert!(p.silent.is_empty());
    // the next event finds no participants but its own actor
    let (made, _) = react(&mut p, A, ParticipationKind::Notifying);
    assert!(posts(&made).is_empty());
}

#[test]
fn an_actor_with_both_reactions_counts_once() {
    let mut p = platform(render_message(&state("Raid Night", 2, None, true, false)));
    p.silent.push(Reactor { id: A, bot: false });
    let (made, end) = react(&mut p, A, ParticipationKind::Notifying);
    assert_eq!(end, Some(Request::Finish));
    assert_eq!(posts(&made), vec!["<@101> が Raid Night に参加しました".to_string()]);
}

#[test]
fn bots_do_not_count() {
    let mut p = platform(render_message(&state("Raid Night", 2, None, true, false)));
    p.notifying.push(Reactor { id: 777, bot: true });
    p.silent.push(Reactor { id: 778, bot: true });
    let (made, _) = react(&mut p, A, ParticipationKind::Silent);
    assert!(posts(&made).is_empty());
}

#[test]
fn full_pages_are_followed_by_the_next_page() {
    let mut p = platform(render_message(&state("Raid Night", 150, None, true, false)));
    p.notifying.clear();
    for id in 1..=100u64 {
        p.notifying.push(Reactor { id, bot: id == 7 });
    }
    for id in 1000..1050u64 {
        p.notifying.push(Reactor { id, bot: false });
    }
    let (made, end) = handle(&mut p, &event(1, ParticipationKind::Silent));
    assert_eq!(end, Some(Request::Finish));
    assert_eq!(
        made,
        vec![
            Request::FetchMessage { channel: CHANNEL, message: MESSAGE },
            fetch(ParticipationKind::Notifying, None),
            fetch(ParticipationKind::Notifying, Some(100)),
            fetch(ParticipationKind::Silent, None),
        ]
    );
    // 99 humans on the first page and 50 on the second: one short of 150
    p.silent.push(Reactor { id: 2000, bot: false });
    let (made, _) = handle(&mut p, &event(2000, ParticipationKind::Silent));
    assert_eq!(posts(&made).len(), 1);
}

#[test]
fn a_page_of_exactly_the_page_size_asks_for_one_more() {
    let mut p = platform(render_message(&state("Raid Night", 200, None, true, false)));
    p.notifying.clear();
    for id in 1..=100u64 {
        p.notifying.push(Reactor { id, bot: false });
    }
    let (made, _) = handle(&mut p, &event(1, ParticipationKind::Notifying));
    assert!(made.contains(&fetch(ParticipationKind::Notifying, Some(100))));
}

#[test]
fn the_role_is_granted_once() {
    let mut p = platform(render_message(&state("Raid Night", 5, Some(77), false, true)));
    let (made, _) = react(&mut p, A, ParticipationKind::Notifying);
    assert_eq!(
        made[1..3],
        [
            Request::FetchMember { guild: GUILD, user: A },
            Request::GrantRole { guild: GUILD, user: A, role: 77 },
        ]
    );
    assert_eq!(p.roles, vec![77]);
    // the second time the member has the role: no grant, no error
    let (made, end) = handle(&mut p, &event(A, ParticipationKind::Notifying));
    assert_eq!(end, Some(Request::Finish));
    assert_eq!(
        made,
        vec![
            Request::FetchMessage { channel: CHANNEL, message: MESSAGE },
            Request::FetchMember { guild: GUILD, user: A },
            fetch(ParticipationKind::Notifying, None),
            fetch(ParticipationKind::Silent, None),
        ]
    );
    assert_eq!(p.roles, vec![77]);
}

#[test]
fn a_failed_grant_is_reported_and_the_handling_goes_on() {
    let mut p = platform(render_message(&state("Raid Night", 1, Some(77), true, true)));
    p.grant_fails = true;
    let (made, end) = react(&mut p, A, ParticipationKind::Silent);
    assert_eq!(end, Some(Request::Finish));
    assert_eq!(
        posts(&made),
        vec![
            "<@101> ロールの付与に失敗しました。権限を確認してください。".to_string(),
            "<@&77>\n<@101> が Raid Night を開始します".to_string(),
        ]
    );
}

#[test]
fn a_member_who_cannot_be_fetched_is_reported_too() {
    let mut p = platform(render_message(&state("Raid Night", 9, Some(77), true, true)));
    p.member_fails = true;
    let (made, _) = react(&mut p, A, ParticipationKind::Silent);
    assert_eq!(
        posts(&made),
        vec!["<@101> ロールの付与に失敗しました。権限を確認してください。".to_string()]
    );
    assert!(!made.iter().any(|r| matches!(r, Request::GrantRole { .. })));
}

#[test]
fn no_grant_without_a_guild_or_without_the_flag() {
    let mut p = platform(render_message(&state("Raid Night", 9, Some(77), true, true)));
    p.notifying.push(Reactor { id: A, bot: false });
    let mut e = event(A, ParticipationKind::Silent);
    e.guild = None;
    let (made, _) = handle(&mut p, &e);
    assert!(!made.iter().any(|r| matches!(r, Request::FetchMember { .. })));

    let mut q = platform(render_message(&state("Raid Night", 9, Some(77), true, false)));
    let (made, _) = react(&mut q, A, ParticipationKind::Silent);
    assert!(!made.iter().any(|r| matches!(r, Request::FetchMember { .. })));
}

#[test]
fn the_delay_is_one_hour() {
    assert_eq!(CLEANUP_DELAY_SECONDS, 3600);
}
