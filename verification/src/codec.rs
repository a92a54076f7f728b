//! The state codec: writing a recruitment into a fragment and reading it
//! back.
//!
//! A fragment is a block of `key = value` lines between the markers. The
//! keys are `game_title` (a string, required), `required_players` (an
//! integer, required), `mention_role` (an integer or a string of digits,
//! optional), `notify_on_reaction` (a boolean, `true` when absent) and
//! `auto_assign_role_on_reaction` (a boolean, `false` when absent). Other
//! keys are ignored.

use crate::document::{document_of, lookup, parse_document, table_get, Entry, FieldValue};
use crate::fragment::{extract_block, fragment_of, open_marker};
use crate::numeral::{
    decimal_digits, lemma_parse_decimal_digits, parse_decimal, parse_u64, push_decimal,
};
use crate::state::{valid, RecruitmentState, StateView, MAX_COUNT};
use crate::text::{chars_of, find_from, push_text, string_of};
use vstd::prelude::*;

verus! {

/// Why a message does not give a recruitment.
#[derive(Clone, Copy, Debug, PartialEq, Eq, Structural)]
pub enum DecodeError {
    /// The message holds no fragment.
    NotFound,
    /// The fragment is no document, lacks a required key, or holds a value
    /// of the wrong type.
    Malformed,
    /// The fragment reads well and breaks the invariant of a recruitment.
    Invalid,
}

/// The title that a fragment gives: the entry must be there and be a string.
pub open spec fn title_of(entry: Option<Entry>) -> Option<Seq<char>> {
    match entry {
        Some(Entry::Text(t)) => Some(t),
        _ => None,
    }
}

/// The participant count that a fragment gives: the entry must be there and
/// be an integer that is not negative. Zero is read here and found invalid
/// once the whole state is known.
pub open spec fn count_of(entry: Option<Entry>) -> Option<u64> {
    match entry {
        Some(Entry::Integer(i)) => if 0 <= i <= MAX_COUNT {
            Some(i as u64)
        } else {
            None
        },
        _ => None,
    }
}

/// The mention target that a fragment gives. Without the entry there is no
/// target. An entry must be a positive integer, or a string that reads as an
/// unsigned 64-bit decimal numeral other than zero. The outer `None` marks
/// an entry that is neither.
pub open spec fn target_of(entry: Option<Entry>) -> Option<Option<u64>> {
    match entry {
        None => Some(None),
        Some(Entry::Integer(i)) => if 1 <= i <= MAX_COUNT {
            Some(Some(i as u64))
        } else {
            None
        },
        Some(Entry::Text(t)) => match parse_u64(t) {
            Some(id) => if id != 0 {
                Some(Some(id))
            } else {
                None
            },
            None => None,
        },
        Some(_) => None,
    }
}

/// The flag that a fragment gives: `default` without the entry; an entry
/// must be a boolean.
pub open spec fn flag_of(entry: Option<Entry>, default: bool) -> Option<bool> {
    match entry {
        None => Some(default),
        Some(Entry::Boolean(b)) => Some(b),
        Some(_) => None,
    }
}

/// The recruitment that five entries give: `Malformed` where a required
/// entry is missing or an entry has the wrong type, `Invalid` where all
/// five read well and the state breaks the invariant.
pub open spec fn state_of_fields(
    title: Option<Entry>,
    required: Option<Entry>,
    target: Option<Entry>,
    notify: Option<Entry>,
    auto_assign: Option<Entry>,
) -> Result<StateView, DecodeError> {
    match (
        title_of(title),
        count_of(required),
        target_of(target),
        flag_of(notify, true),
        flag_of(auto_assign, false),
    ) {
        (Some(t), Some(n), Some(m), Some(notify_on_join), Some(auto_assign_on_join)) => {
            let s = StateView {
                activity_title: t,
                required_participants: n,
                mention_target: m,
                notify_on_join,
                auto_assign_on_join,
            };
            if valid(s) {
                Ok(s)
            } else {
                Err(DecodeError::Invalid)
            }
        },
        _ => Err(DecodeError::Malformed),
    }
}

fn read_title(entry: Option<FieldValue>) -> (r: Option<String>)
    ensures
        match r {
            Some(t) => title_of(view_of(entry)) == Some(t@),
            None => title_of(view_of(entry)) is None,
        },
{
    match entry {
        Some(FieldValue::Text(t)) => Some(t),
        _ => None,
    }
}

fn read_count(entry: Option<FieldValue>) -> (r: Option<u64>)
    ensures
        r == count_of(view_of(entry)),
{
    match entry {
        Some(FieldValue::Integer(i)) => if i >= 0 {
            Some(i as u64)
        } else {
            None
        },
        _ => None,
    }
}

fn read_target(entry: Option<FieldValue>) -> (r: Option<Option<u64>>)
    ensures
        r == target_of(view_of(entry)),
{
    match entry {
        None => Some(None),
        Some(FieldValue::Integer(i)) => if i >= 1 {
            Some(Some(i as u64))
        } else {
            None
        },
        Some(FieldValue::Text(t)) => {
            let digits = chars_of(t.as_str());
            match parse_decimal(&digits) {
                Some(id) => if id != 0 {
                    Some(Some(id))
                } else {
                    None
                },
                None => None,
            }
        },
        Some(_) => None,
    }
}

fn read_flag(entry: Option<FieldValue>, default: bool) -> (r: Option<bool>)
    ensures
        r == flag_of(view_of(entry), default),
{
    match entry {
        None => Some(default),
        Some(FieldValue::Boolean(b)) => Some(b),
        Some(_) => None,
    }
}

/// The entry that an optional value stands for.
pub open spec fn view_of(value: Option<FieldValue>) -> Option<Entry> {
    match value {
        Some(v) => Some(v@),
        None => None,
    }
}

/// The recruitment that the values under the five keys give.
pub fn state_from_fields(
    title: Option<FieldValue>,
    required: Option<FieldValue>,
    target: Option<FieldValue>,
    notify: Option<FieldValue>,
    auto_assign: Option<FieldValue>,
) -> (r: Result<RecruitmentState, DecodeError>)
    ensures
        match r {
            Ok(s) => state_of_fields(
                view_of(title),
                view_of(required),
                view_of(target),
                view_of(notify),
                view_of(auto_assign),
            ) == Ok::<StateView, DecodeError>(s@),
            Err(e) => state_of_fields(
                view_of(title),
                view_of(required),
                view_of(target),
                view_of(notify),
                view_of(auto_assign),
            ) == Err::<StateView, DecodeError>(e),
        },
{
    let t = read_title(title);
    let n = read_count(required);
    let m = read_target(target);
    let f = read_flag(notify, true);
    let a = read_flag(auto_assign, false);
    match (t, n, m, f, a) {
        (
            Some(activity_title),
            Some(required_participants),
            Some(mention_target),
            Some(notify_on_join),
            Some(auto_assign_on_join),
        ) => {
            let s = RecruitmentState {
                activity_title,
                required_participants,
                mention_target,
                notify_on_join,
                auto_assign_on_join,
            };
            if s.is_valid() {
                Ok(s)
            } else {
                Err(DecodeError::Invalid)
            }
        },
        _ => Err(DecodeError::Malformed),
    }
}

/// The character of the hexadecimal digit `d`.
pub open spec fn hex_char(d: nat) -> char
    recommends
        d < 16,
{
    if d < 10 {
        ((48 + d) as u8) as char
    } else {
        ((55 + d) as u8) as char
    }
}

/// Whether `c` is written as `\u` and four hexadecimal digits: the control
/// characters, which a quoted string cannot hold as they are, and the
/// backtick, which would otherwise be free to form a marker.
pub open spec fn needs_code(c: char) -> bool {
    (c as u32) < 0x20 || c as u32 == 0x7F || c == '`'
}

/// How one character of a title stands inside the quotes.
pub open spec fn escape(c: char) -> Seq<char> {
    if c == '"' {
        seq!['\\', '"']
    } else if c == '\\' {
        seq!['\\', '\\']
    } else if c == '\n' {
        seq!['\\', 'n']
    } else if c == '\t' {
        seq!['\\', 't']
    } else if c == '\r' {
        seq!['\\', 'r']
    } else if needs_code(c) {
        seq![
            '\\',
            'u',
            '0',
            '0',
            hex_char((c as u32 / 16) as nat),
            hex_char((c as u32 % 16) as nat),
        ]
    } else {
        seq![c]
    }
}

/// The characters of `s`, each as it stands inside the quotes.
pub open spec fn escaped(s: Seq<char>) -> Seq<char>
    decreases s.len(),
{
    if s.len() == 0 {
        Seq::empty()
    } else {
        escaped(s.drop_last()) + escape(s.last())
    }
}

/// `s` as a quoted string.
pub open spec fn quoted(s: Seq<char>) -> Seq<char> {
    seq!['"'] + escaped(s) + seq!['"']
}

/// How a mention target is written: as an integer where the fragment's
/// integers can hold it, as a quoted numeral otherwise.
pub open spec fn target_text(id: u64) -> Seq<char> {
    if id <= MAX_COUNT {
        decimal_digits(id as nat)
    } else {
        seq!['"'] + decimal_digits(id as nat) + seq!['"']
    }
}

/// The line of the mention target, with the line break before it.
pub open spec fn target_line(target: Option<u64>) -> Seq<char> {
    match target {
        Some(id) => "\nmention_role = "@ + target_text(id),
        None => Seq::empty(),
    }
}

/// The line of the announcement flag: written only where it is off.
pub open spec fn notify_line(notify: bool) -> Seq<char> {
    if notify {
        Seq::empty()
    } else {
        "\nnotify_on_reaction = false"@
    }
}

/// The line of the grant flag: written only where it is on.
pub open spec fn auto_assign_line(auto_assign: bool) -> Seq<char> {
    if auto_assign {
        "\nauto_assign_role_on_reaction = true"@
    } else {
        Seq::empty()
    }
}

/// The lines of a recruitment, without the markers.
pub open spec fn block_text(s: StateView) -> Seq<char> {
    "game_title = "@ + quoted(s.activity_title) + "\nrequired_players = "@ + decimal_digits(
        s.required_participants as nat,
    ) + target_line(s.mention_target) + notify_line(s.notify_on_join) + auto_assign_line(
        s.auto_assign_on_join,
    )
}

/// The fragment of a recruitment: the opening marker, the lines, and the
/// closing marker, each on lines of their own.
pub open spec fn encoding(s: StateView) -> Seq<char> {
    "```toml\n"@ + block_text(s) + "\n```"@
}

fn hex_digit(d: u8) -> (c: char)
    requires
        d < 16,
    ensures
        c == hex_char(d as nat),
{
    if d < 10 {
        (48 + d) as char
    } else {
        (55 + d) as char
    }
}

fn push_escaped_char(out: &mut Vec<char>, c: char)
    ensures
        final(out)@ == old(out)@ + escape(c),
{
    let u: u32 = c as u32;
    if c == '"' {
        out.push('\\');
        out.push('"');
    } else if c == '\\' {
        out.push('\\');
        out.push('\\');
    } else if c == '\n' {
        out.push('\\');
        out.push('n');
    } else if c == '\t' {
        out.push('\\');
        out.push('t');
    } else if c == '\r' {
        out.push('\\');
        out.push('r');
    } else if u < 0x20 || u == 0x7F || c == '`' {
        out.push('\\');
        out.push('u');
        out.push('0');
        out.push('0');
        out.push(hex_digit((u / 16) as u8));
        out.push(hex_digit((u % 16) as u8));
    } else {
        out.push(c);
    }
    assert(out@ =~= old(out)@ + escape(c));
}

fn push_quoted(out: &mut Vec<char>, s: &str)
    ensures
        final(out)@ == old(out)@ + quoted(s@),
{
    let chars = chars_of(s);
    out.push('"');
    let mut i: usize = 0;
    while i < chars.len()
        invariant
            i <= chars.len(),
            out@ == old(out)@ + seq!['"'] + escaped(chars@.take(i as int)),
        decreases chars.len() - i,
    {
        push_escaped_char(out, chars[i]);
        proof {
            assert(chars@.take(i + 1).drop_last() =~= chars@.take(i as int));
            assert(chars@.take(i + 1).last() == chars@[i as int]);
            assert(out@ =~= old(out)@ + seq!['"'] + escaped(chars@.take(i + 1)));
        }
        i += 1;
    }
    assert(chars@.take(chars.len() as int) =~= chars@);
    out.push('"');
    assert(out@ =~= old(out)@ + quoted(s@));
}

fn push_target(out: &mut Vec<char>, id: u64)
    ensures
        final(out)@ == old(out)@ + target_text(id),
{
    if id <= MAX_COUNT {
        push_decimal(out, id);
    } else {
        out.push('"');
        push_decimal(out, id);
        out.push('"');
        assert(out@ =~= old(out)@ + target_text(id));
    }
}

/// The lines of `state`, without the markers.
pub fn encode_block(state: &RecruitmentState) -> (out: Vec<char>)
    ensures
        out@ == block_text(state@),
{
    let mut out: Vec<char> = Vec::new();
    push_text(&mut out, "game_title = ");
    push_quoted(&mut out, state.activity_title.as_str());
    push_text(&mut out, "\nrequired_players = ");
    push_decimal(&mut out, state.required_participants);
    let ghost before_target = out@;
    match state.mention_target {
        Some(id) => {
            push_text(&mut out, "\nmention_role = ");
            push_target(&mut out, id);
        },
        None => {},
    }
    assert(out@ =~= before_target + target_line(state.mention_target));
    let ghost before_notify = out@;
    if !state.notify_on_join {
        push_text(&mut out, "\nnotify_on_reaction = false");
    }
    assert(out@ =~= before_notify + notify_line(state.notify_on_join));
    let ghost before_auto = out@;
    if state.auto_assign_on_join {
        push_text(&mut out, "\nauto_assign_role_on_reaction = true");
    }
    assert(out@ =~= before_auto + auto_assign_line(state.auto_assign_on_join));
    assert(out@ =~= block_text(state@));
    out
}

/// The fragment that carries `state`: the same text for the same state.
pub fn encode(state: &RecruitmentState) -> (out: String)
    ensures
        out@ == encoding(state@),
{
    let block = encode_block(state);
    let mut out: Vec<char> = Vec::new();
    push_text(&mut out, "```toml\n");
    crate::text::push_all(&mut out, &block);
    push_text(&mut out, "\n```");
    assert(out@ =~= encoding(state@));
    string_of(&out)
}

/// The recruitment that a document gives: that of its entries under the
/// five keys; its other entries do not count.
pub open spec fn state_of_document(doc: Map<Seq<char>, Entry>) -> Result<StateView, DecodeError> {
    state_of_fields(
        lookup(doc, "game_title"@),
        lookup(doc, "required_players"@),
        lookup(doc, "mention_role"@),
        lookup(doc, "notify_on_reaction"@),
        lookup(doc, "auto_assign_role_on_reaction"@),
    )
}

/// The recruitment that a message gives: `NotFound` where it holds no
/// fragment, `Malformed` where the fragment is no document, and else what
/// the document gives.
pub open spec fn decoding(text: Seq<char>) -> Result<StateView, DecodeError> {
    match fragment_of(text) {
        None => Err(DecodeError::NotFound),
        Some(block) => match document_of(block) {
            None => Err(DecodeError::Malformed),
            Some(doc) => state_of_document(doc),
        },
    }
}

fn state_from_table(table: &toml::Table) -> (r: Result<RecruitmentState, DecodeError>)
    ensures
        match r {
            Ok(s) => state_of_document(crate::document::table_entries(*table)) == Ok::<
                StateView,
                DecodeError,
            >(s@),
            Err(e) => state_of_document(crate::document::table_entries(*table)) == Err::<
                StateView,
                DecodeError,
            >(e),
        },
{
    let title = table_get(table, "game_title");
    let required = table_get(table, "required_players");
    let target = table_get(table, "mention_role");
    let notify = table_get(table, "notify_on_reaction");
    let auto_assign = table_get(table, "auto_assign_role_on_reaction");
    state_from_fields(title, required, target, notify, auto_assign)
}

/// Reads the recruitment that the message `text` carries.
pub fn decode(text: &str) -> (r: Result<RecruitmentState, DecodeError>)
    ensures
        match r {
            Ok(s) => decoding(text@) == Ok::<StateView, DecodeError>(s@) && valid(s@),
            Err(e) => decoding(text@) == Err::<StateView, DecodeError>(e),
        },
{
    match extract_block(text) {
        None => Err(DecodeError::NotFound),
        Some(block) => match parse_document(block.as_str()) {
            Err(_) => Err(DecodeError::Malformed),
            Ok(table) => state_from_table(&table),
        },
    }
}

/// The entries that the lines of a recruitment spell out.
pub open spec fn written_entries(s: StateView) -> Map<Seq<char>, Entry> {
    let required = map![
        "game_title"@ => Entry::Text(s.activity_title),
        "required_players"@ => Entry::Integer(s.required_participants as int),
    ];
    let with_target = match s.mention_target {
        Some(id) => required.insert(
            "mention_role"@,
            if id <= MAX_COUNT {
                Entry::Integer(id as int)
            } else {
                Entry::Text(decimal_digits(id as nat))
            },
        ),
        None => required,
    };
    let with_notify = if s.notify_on_join {
        with_target
    } else {
        with_target.insert("notify_on_reaction"@, Entry::Boolean(false))
    };
    if s.auto_assign_on_join {
        with_notify.insert("auto_assign_role_on_reaction"@, Entry::Boolean(true))
    } else {
        with_notify
    }
}

/// Two documents hold the same under each of the five keys.
pub open spec fn same_fields(a: Map<Seq<char>, Entry>, b: Map<Seq<char>, Entry>) -> bool {
    &&& lookup(a, "game_title"@) == lookup(b, "game_title"@)
    &&& lookup(a, "required_players"@) == lookup(b, "required_players"@)
    &&& lookup(a, "mention_role"@) == lookup(b, "mention_role"@)
    &&& lookup(a, "notify_on_reaction"@) == lookup(b, "notify_on_reaction"@)
    &&& lookup(a, "auto_assign_role_on_reaction"@) == lookup(b, "auto_assign_role_on_reaction"@)
}

/// The five keys are five different strings.
pub proof fn lemma_keys_differ()
    ensures
        "game_title"@ != "required_players"@,
        "game_title"@ != "mention_role"@,
        "game_title"@ != "notify_on_reaction"@,
        "game_title"@ != "auto_assign_role_on_reaction"@,
        "required_players"@ != "mention_role"@,
        "required_players"@ != "notify_on_reaction"@,
        "required_players"@ != "auto_assign_role_on_reaction"@,
        "mention_role"@ != "notify_on_reaction"@,
        "mention_role"@ != "auto_assign_role_on_reaction"@,
        "notify_on_reaction"@ != "auto_assign_role_on_reaction"@,
{
    reveal_strlit("game_title");
    reveal_strlit("required_players");
    reveal_strlit("mention_role");
    reveal_strlit("notify_on_reaction");
    reveal_strlit("auto_assign_role_on_reaction");
    assert("game_title"@[0] == 'g');
    assert("required_players"@[0] == 'r');
    assert("mention_role"@[0] == 'm');
    assert("notify_on_reaction"@[0] == 'n');
    assert("auto_assign_role_on_reaction"@[0] == 'a');
}

/// The entries that the lines of a valid recruitment spell out give that
/// recruitment back, and so does every document that holds the same under
/// the five keys.
pub proof fn lemma_written_entries_give_state(s: StateView, doc: Map<Seq<char>, Entry>)
    requires
        valid(s),
        same_fields(doc, written_entries(s)),
    ensures
        state_of_document(doc) == Ok::<StateView, DecodeError>(s),
{
    lemma_keys_differ();
    match s.mention_target {
        Some(id) => {
            lemma_parse_decimal_digits(id as nat);
        },
        None => {},
    }
    let w = written_entries(s);
    assert(lookup(w, "game_title"@) == Some(Entry::Text(s.activity_title)));
    assert(lookup(w, "required_players"@) == Some(
        Entry::Integer(s.required_participants as int),
    ));
    assert(flag_of(lookup(w, "notify_on_reaction"@), true) == Some(s.notify_on_join));
    assert(flag_of(lookup(w, "auto_assign_role_on_reaction"@), false) == Some(
        s.auto_assign_on_join,
    ));
    assert(target_of(lookup(w, "mention_role"@)) == Some(s.mention_target));
}

/// A message without a fragment gives `NotFound`, and no other message
/// does; one without an opening marker is such a message.
pub proof fn lemma_not_found_without_fragment(text: Seq<char>)
    ensures
        decoding(text) == Err::<StateView, DecodeError>(DecodeError::NotFound) <==> fragment_of(
            text,
        ) is None,
        find_from(text, open_marker(), 0) is None ==> fragment_of(text) is None,
{
}

/// A document that asks for zero participants, and reads well otherwise,
/// gives `Invalid`.
pub proof fn lemma_zero_count_is_invalid(doc: Map<Seq<char>, Entry>)
    requires
        lookup(doc, "required_players"@) == Some(Entry::Integer(0)),
        title_of(lookup(doc, "game_title"@)) is Some,
        target_of(lookup(doc, "mention_role"@)) is Some,
        flag_of(lookup(doc, "notify_on_reaction"@), true) is Some,
        flag_of(lookup(doc, "auto_assign_role_on_reaction"@), false) is Some,
    ensures
        state_of_document(doc) == Err::<StateView, DecodeError>(DecodeError::Invalid),
{
}

/// A document without a title, or without a participant count, gives
/// `Malformed`, whatever else it holds.
pub proof fn lemma_missing_key_is_malformed(doc: Map<Seq<char>, Entry>)
    requires
        lookup(doc, "game_title"@) is None || lookup(doc, "required_players"@) is None,
    ensures
        state_of_document(doc) == Err::<StateView, DecodeError>(DecodeError::Malformed),
{
}

/// Writing a recruitment that was read gives lines that mean the same:
/// whatever message `text` a recruitment `s` was read from, `s` is valid,
/// and the entries that the lines of `s` spell out give `s` again.
pub proof fn lemma_rewriting_keeps_the_state(text: Seq<char>, s: StateView)
    requires
        decoding(text) == Ok::<StateView, DecodeError>(s),
    ensures
        valid(s),
        state_of_document(written_entries(s)) == Ok::<StateView, DecodeError>(s),
{
    lemma_written_entries_give_state(s, written_entries(s));
}

} // verus!
