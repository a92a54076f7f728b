use recruitment::codec::{decode, encode, state_from_fields, DecodeError};
use recruitment::document::FieldValue;
use recruitment::fragment::extract_block;
use recruitment::state::RecruitmentState;

fn state(title: &str, required: u64, target: Option<u64>, notify: bool, auto: bool) -> RecruitmentState {
    RecruitmentState {
        activity_title: title.to_string(),
        required_participants: required,
        mention_target: target,
        notify_on_join: notify,
        auto_assign_on_join: auto,
    }
}

#[test]
fn encode_writes_the_required_lines_only_by_default() {
    let s = state("Raid Night", 2, None, true, false);
    assert_eq!(
        encode(&s),
        "```toml\ngame_title = \"Raid Night\"\nrequired_players = 2\n```"
    );
}

#[test]
fn encode_writes_every_line_that_differs_from_its_default() {
    let s = state("Raid Night", 4, Some(1234567890), false, true);
    assert_eq!(
        encode(&s),
        "```toml\ngame_title = \"Raid Night\"\nrequired_players = 4\nmention_role = 1234567890\nnotify_on_reaction = false\nauto_assign_role_on_reaction = true\n```"
    );
}

#[test]
fn encode_is_deterministic() {
    let s = state("Raid Night", 4, Some(7), false, true);
    assert_eq!(encode(&s), encode(&s.clone()));
}

#[test]
fn round_trip_of_a_plain_state() {
    let s = state("Raid Night", 2, None, true, false);
    assert_eq!(decode(&encode(&s)), Ok(s));
}

#[test]
fn round_trip_with_every_field_set() {
    let s = state("Raid Night", 9223372036854775807, Some(9223372036854775807), false, true);
    assert_eq!(decode(&encode(&s)), Ok(s));
}

#[test]
fn round_trip_of_a_target_beyond_the_integer_range() {
    let s = state("Raid Night", 3, Some(18446744073709551615), true, true);
    let text = encode(&s);
    assert!(text.contains("mention_role = \"18446744073709551615\""));
    assert_eq!(decode(&text), Ok(s));
}

#[test]
fn round_trip_of_a_title_with_quotes_backslashes_and_controls() {
    let s = state("a \"b\" \\ c\n\td\r\u{0}\u{1f}\u{7f} e", 1, None, true, false);
    assert_eq!(decode(&encode(&s)), Ok(s));
}

#[test]
fn round_trip_of_a_title_with_backticks_and_markers() {
    let s = state("```toml evil ``` `", 1, None, true, false);
    let text = encode(&s);
    assert_eq!(text.matches('`').count(), 6);
    assert_eq!(decode(&text), Ok(s));
}

#[test]
fn round_trip_of_a_title_in_another_script() {
    let s = state("\u{3000}モンハン 🎮 \u{85}", 5, Some(42), true, false);
    assert_eq!(decode(&encode(&s)), Ok(s));
}

#[test]
fn round_trip_inside_a_message() {
    let s = state("Raid Night", 2, Some(5), true, true);
    let message = format!("\nreact to join Raid Night\n{}\ntrailing ``` text", encode(&s));
    assert_eq!(decode(&message), Ok(s));
}

#[test]
fn decode_without_a_fragment_is_not_found() {
    assert_eq!(decode("hello"), Err(DecodeError::NotFound));
    assert_eq!(decode(""), Err(DecodeError::NotFound));
}

#[test]
fn decode_without_a_closing_marker_is_not_found() {
    assert_eq!(
        decode("```toml\ngame_title = \"x\"\nrequired_players = 1\n"),
        Err(DecodeError::NotFound)
    );
}

#[test]
fn decode_of_zero_participants_is_invalid() {
    assert_eq!(
        decode("```toml\ngame_title = \"x\"\nrequired_players = 0\n```"),
        Err(DecodeError::Invalid)
    );
}

#[test]
fn decode_of_an_empty_title_is_invalid() {
    assert_eq!(
        decode("```toml\ngame_title = \"\"\nrequired_players = 1\n```"),
        Err(DecodeError::Invalid)
    );
}

#[test]
fn decode_without_a_title_is_malformed() {
    assert_eq!(
        decode("```toml\nrequired_players = 2\n```"),
        Err(DecodeError::Malformed)
    );
}

#[test]
fn decode_without_a_count_is_malformed() {
    assert_eq!(
        decode("```toml\ngame_title = \"x\"\n```"),
        Err(DecodeError::Malformed)
    );
}

#[test]
fn decode_of_wrong_types_is_malformed() {
    assert_eq!(
        decode("```toml\ngame_title = 5\nrequired_players = 2\n```"),
        Err(DecodeError::Malformed)
    );
    assert_eq!(
        decode("```toml\ngame_title = \"x\"\nrequired_players = \"2\"\n```"),
        Err(DecodeError::Malformed)
    );
    assert_eq!(
        decode("```toml\ngame_title = \"x\"\nrequired_players = -1\n```"),
        Err(DecodeError::Malformed)
    );
    assert_eq!(
        decode("```toml\ngame_title = \"x\"\nrequired_players = 2\nnotify_on_reaction = 1\n```"),
        Err(DecodeError::Malformed)
    );
    assert_eq!(
        decode("```toml\ngame_title = \"x\"\nrequired_players = 2\nmention_role = 0\n```"),
        Err(DecodeError::Malformed)
    );
    assert_eq!(
        decode("```toml\ngame_title = \"x\"\nrequired_players = 2\nmention_role = true\n```"),
        Err(DecodeError::Malformed)
    );
}

#[test]
fn decode_of_text_that_is_no_document_is_malformed() {
    assert_eq!(decode("```toml\nthis is not a document\n```"), Err(DecodeError::Malformed));
    assert_eq!(
        decode("```toml\ngame_title = \"x\"\ngame_title = \"y\"\nrequired_players = 2\n```"),
        Err(DecodeError::Malformed)
    );
}

#[test]
fn decode_takes_defaults_for_absent_flags() {
    let got = decode("```toml\ngame_title = \"x\"\nrequired_players = 2\n```").unwrap();
    assert!(got.notify_on_join);
    assert!(!got.auto_assign_on_join);
    assert_eq!(got.mention_target, None);
}

#[test]
fn decode_ignores_unknown_keys() {
    let got = decode(
        "```toml\nflavour = \"new\"\ngame_title = \"x\"\nrequired_players = 2\nextra = [1, 2]\n```",
    );
    assert_eq!(got, Ok(state("x", 2, None, true, false)));
}

#[test]
fn decode_accepts_a_target_written_as_a_string() {
    let got =
        decode("```toml\ngame_title = \"x\"\nrequired_players = 2\nmention_role = \"+77\"\n```");
    assert_eq!(got, Ok(state("x", 2, Some(77), true, false)));
    let zero =
        decode("```toml\ngame_title = \"x\"\nrequired_players = 2\nmention_role = \"0\"\n```");
    assert_eq!(zero, Err(DecodeError::Malformed));
}

#[test]
fn decode_reads_the_first_fragment() {
    let text = "a ```toml\ngame_title = \"one\"\nrequired_players = 1\n``` b ```toml\ngame_title = \"two\"\nrequired_players = 2\n```";
    assert_eq!(decode(text), Ok(state("one", 1, None, true, false)));
}

#[test]
fn extract_block_trims_white_space_of_any_script() {
    assert_eq!(
        extract_block("x```toml \u{3000}\n a = 1 \u{a0}\n```y"),
        Some("a = 1".to_string())
    );
    assert_eq!(extract_block("```toml```"), Some(String::new()));
    assert_eq!(extract_block("no markers"), None);
    assert_eq!(extract_block("``` only a closing marker"), None);
}

#[test]
fn fields_give_a_state() {
    let got = state_from_fields(
        Some(FieldValue::Text("Raid Night".to_string())),
        Some(FieldValue::Integer(3)),
        Some(FieldValue::Integer(12)),
        Some(FieldValue::Boolean(false)),
        None,
    );
    assert_eq!(got, Ok(state("Raid Night", 3, Some(12), false, false)));
}

#[test]
fn fields_of_other_types_are_malformed() {
    let got = state_from_fields(
        Some(FieldValue::Text("Raid Night".to_string())),
        Some(FieldValue::Other),
        None,
        None,
        None,
    );
    assert_eq!(got, Err(DecodeError::Malformed));
    let flag = state_from_fields(
        Some(FieldValue::Text("Raid Night".to_string())),
        Some(FieldValue::Integer(3)),
        None,
        None,
        Some(FieldValue::Text("true".to_string())),
    );
    assert_eq!(flag, Err(DecodeError::Malformed));
}

#[test]
fn fields_with_a_zero_count_are_invalid() {
    let got = state_from_fields(
        Some(FieldValue::Text("Raid Night".to_string())),
        Some(FieldValue::Integer(0)),
        None,
        None,
        None,
    );
    assert_eq!(got, Err(DecodeError::Invalid));
}
