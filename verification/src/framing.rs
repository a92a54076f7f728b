//! What holds of the fragment of an encoded recruitment: the lines hold no
//! backtick, so the markers around them are found where they were put.

use crate::codec::{
    auto_assign_line, block_text, decoding, encoding, escape, escaped,
    lemma_written_entries_give_state, notify_line, quoted, same_fields, state_of_document,
    target_line, target_text, written_entries, DecodeError,
};
use crate::document::document_of;
use crate::fragment::{close_marker, fragment_of, open_marker};
use crate::numeral::{decimal_digits, is_digit, lemma_parse_decimal_digits};
use crate::state::{valid, StateView};
use crate::text::{find_from, is_space, matches_at, trim_end, trim_start, trimmed};
use vstd::prelude::*;

verus! {

/// No character of `s` is a backtick.
pub open spec fn no_backtick(s: Seq<char>) -> bool {
    forall|i: int| 0 <= i < s.len() ==> #[trigger] s[i] != '`'
}

/// Where `pat` stands at `i` and nowhere from `from` up to `i`, the search
/// from `from` finds `i`.
pub proof fn lemma_first_match_is_found(hay: Seq<char>, pat: Seq<char>, from: int, i: int)
    requires
        0 <= from <= i,
        matches_at(hay, pat, i),
        forall|j: int| from <= j < i ==> !matches_at(hay, pat, j),
    ensures
        find_from(hay, pat, from) == Some(i),
    decreases i - from,
{
    if from < i {
        lemma_first_match_is_found(hay, pat, from + 1, i);
    }
}

/// Backticks come into a concatenation only from its parts.
pub proof fn lemma_no_backtick_concat(a: Seq<char>, b: Seq<char>)
    requires
        no_backtick(a),
        no_backtick(b),
    ensures
        no_backtick(a + b),
{
    assert forall|i: int| 0 <= i < (a + b).len() implies #[trigger] (a + b)[i] != '`' by {
        if i < a.len() {
            assert((a + b)[i] == a[i]);
        } else {
            assert((a + b)[i] == b[i - a.len()]);
        }
    }
}

/// A numeral holds no backtick, is not empty, and ends with a digit.
pub proof fn lemma_numeral_shape(n: nat)
    requires
        n <= u64::MAX,
    ensures
        no_backtick(decimal_digits(n)),
        decimal_digits(n).len() > 0,
        is_digit(decimal_digits(n).last()),
{
    lemma_parse_decimal_digits(n);
    let s = decimal_digits(n);
    assert forall|i: int| 0 <= i < s.len() implies #[trigger] s[i] != '`' by {
        assert(is_digit(s[i]));
    }
}

/// A title inside the quotes holds no backtick.
pub proof fn lemma_escaped_no_backtick(s: Seq<char>)
    ensures
        no_backtick(escaped(s)),
    decreases s.len(),
{
    if s.len() > 0 {
        lemma_escaped_no_backtick(s.drop_last());
        let e = escape(s.last());
        assert(no_backtick(e)) by {
            assert forall|i: int| 0 <= i < e.len() implies #[trigger] e[i] != '`' by {}
        }
        lemma_no_backtick_concat(escaped(s.drop_last()), e);
    }
}

/// No character of a string literal of the lines is a backtick.
proof fn lemma_literals_no_backtick()
    ensures
        no_backtick("game_title = "@),
        no_backtick("\nrequired_players = "@),
        no_backtick("\nmention_role = "@),
        no_backtick("\nnotify_on_reaction = false"@),
        no_backtick("\nauto_assign_role_on_reaction = true"@),
        "game_title = "@.len() == 13,
        "game_title = "@[0] == 'g',
        "\nnotify_on_reaction = false"@.len() > 0,
        "\nnotify_on_reaction = false"@.last() == 'e',
        "\nauto_assign_role_on_reaction = true"@.len() > 0,
        "\nauto_assign_role_on_reaction = true"@.last() == 'e',
{
    reveal_strlit("game_title = ");
    reveal_strlit("\nrequired_players = ");
    reveal_strlit("\nmention_role = ");
    reveal_strlit("\nnotify_on_reaction = false");
    reveal_strlit("\nauto_assign_role_on_reaction = true");
}

/// The shape of the lines of a recruitment: no backtick anywhere, and no
/// white space at either end.
pub proof fn lemma_block_shape(s: StateView)
    ensures
        no_backtick(block_text(s)),
        block_text(s).len() > 0,
        !is_space(block_text(s)[0]),
        !is_space(block_text(s).last()),
{
    lemma_literals_no_backtick();
    lemma_escaped_no_backtick(s.activity_title);
    lemma_numeral_shape(s.required_participants as nat);
    let q = quoted(s.activity_title);
    assert(no_backtick(q)) by {
        lemma_no_backtick_concat(seq!['"'], escaped(s.activity_title));
        lemma_no_backtick_concat(seq!['"'] + escaped(s.activity_title), seq!['"']);
    }
    let head = "game_title = "@ + q + "\nrequired_players = "@ + decimal_digits(
        s.required_participants as nat,
    );
    assert(no_backtick(head) && head.len() > 0 && head[0] == 'g' && is_digit(head.last())) by {
        lemma_no_backtick_concat("game_title = "@, q);
        lemma_no_backtick_concat("game_title = "@ + q, "\nrequired_players = "@);
        lemma_no_backtick_concat(
            "game_title = "@ + q + "\nrequired_players = "@,
            decimal_digits(s.required_participants as nat),
        );
    }
    let t = target_line(s.mention_target);
    assert(no_backtick(t) && (t.len() > 0 ==> is_digit(t.last()) || t.last() == '"')) by {
        match s.mention_target {
            Some(id) => {
                lemma_numeral_shape(id as nat);
                let d = decimal_digits(id as nat);
                lemma_no_backtick_concat(seq!['"'], d);
                lemma_no_backtick_concat(seq!['"'] + d, seq!['"']);
                lemma_no_backtick_concat("\nmention_role = "@, target_text(id));
            },
            None => {},
        }
    }
    let with_target = head + t;
    assert(no_backtick(with_target) && with_target.len() > 0 && with_target[0] == 'g' && (
    is_digit(with_target.last()) || with_target.last() == '"')) by {
        lemma_no_backtick_concat(head, t);
    }
    let n = notify_line(s.notify_on_join);
    let with_notify = with_target + n;
    assert(no_backtick(with_notify) && with_notify.len() > 0 && with_notify[0] == 'g' && (
    is_digit(with_notify.last()) || with_notify.last() == '"' || with_notify.last() == 'e'))
        by {
        lemma_no_backtick_concat(with_target, n);
    }
    let a = auto_assign_line(s.auto_assign_on_join);
    let all = with_notify + a;
    assert(no_backtick(all) && all.len() > 0 && all[0] == 'g' && (is_digit(all.last())
        || all.last() == '"' || all.last() == 'e')) by {
        lemma_no_backtick_concat(with_notify, a);
    }
    assert(all =~= block_text(s));
}

/// Trimming takes a line break off either end of text that itself neither
/// starts nor ends with white space.
pub proof fn lemma_trim_line_breaks(b: Seq<char>)
    requires
        b.len() > 0,
        !is_space(b[0]),
        !is_space(b.last()),
    ensures
        trimmed(seq!['\n'] + b + seq!['\n']) == b,
{
    let whole = seq!['\n'] + b + seq!['\n'];
    let tail = b + seq!['\n'];
    assert(whole.drop_first() =~= tail);
    assert(is_space('\n'));
    assert(trim_start(whole) == trim_start(tail));
    assert(tail[0] == b[0]);
    assert(trim_start(tail) == tail);
    assert(tail.drop_last() =~= b);
    assert(trim_end(tail) == trim_end(b));
    assert(trim_end(b) == b);
}

/// Locating the fragment in a message that holds an encoded recruitment
/// gives the lines that were written, whatever follows the fragment, as
/// long as no opening marker stands in the text before it.
pub proof fn lemma_fragment_of_encoding(s: StateView, prefix: Seq<char>, suffix: Seq<char>)
    requires
        find_from(prefix, open_marker(), 0) is None,
    ensures
        fragment_of(prefix + encoding(s) + suffix) == Some(block_text(s)),
{
    reveal_strlit("```toml\n");
    reveal_strlit("\n```");
    lemma_block_shape(s);
    let b = block_text(s);
    let n = b.len() as int;
    let text = prefix + encoding(s) + suffix;
    let p = prefix.len() as int;
    let open = open_marker();
    let close = close_marker();
    assert(encoding(s).len() == n + 12);
    assert forall|k: int| 0 <= k < encoding(s).len() implies #[trigger] text[p + k] == encoding(
        s,
    )[k] by {}
    assert forall|k: int| 0 <= k < n implies #[trigger] encoding(s)[8 + k] == b[k] by {}
    // the opening marker stands at the end of the prefix, and not before
    assert(matches_at(text, open, p)) by {
        assert(text.subrange(p, p + 7) =~= open);
    }
    crate::text::lemma_find_from_is_first(prefix, open, 0);
    assert forall|j: int| 0 <= j < p implies !matches_at(text, open, j) by {
        if matches_at(text, open, j) {
            let m = text.subrange(j, j + 7);
            assert(m[3] == 't' && m[4] == 'o' && m[5] == 'm' && m[6] == 'l');
            assert(text[j + 3] == m[3]);
            assert(text[j + 4] == m[4]);
            assert(text[j + 5] == m[5]);
            assert(text[j + 6] == m[6]);
            if j + 7 > p {
                let k = if j + 3 >= p {
                    j + 3
                } else if j + 4 >= p {
                    j + 4
                } else if j + 5 >= p {
                    j + 5
                } else {
                    j + 6
                };
                assert(0 <= k - p < 3);
                assert(text[p + (k - p)] == encoding(s)[k - p]);
                assert(encoding(s)[k - p] == '`');
            } else {
                assert(prefix.subrange(j, j + 7) =~= m);
                assert(matches_at(prefix, open, j));
            }
        }
    }
    lemma_first_match_is_found(text, open, 0, p);
    // the closing marker stands right after the lines and their line break
    let inner = p + 7;
    let end = p + 8 + n + 1;
    assert(matches_at(text, close, end)) by {
        assert(text[p + (n + 9)] == '`');
        assert(text[p + (n + 10)] == '`');
        assert(text[p + (n + 11)] == '`');
        assert(text.subrange(end, end + 3) =~= close);
    }
    assert forall|j: int| inner <= j < end implies !matches_at(text, close, j) by {
        if matches_at(text, close, j) {
            assert(text.subrange(j, j + 3)[0] == '`');
            assert(text[j] == '`');
            assert(text[p + (j - p)] == encoding(s)[j - p]);
            if j == inner {
                assert(encoding(s)[7] == '\n');
            } else if j == end - 1 {
                assert(encoding(s)[n + 8] == '\n');
            } else {
                assert(encoding(s)[8 + (j - p - 8)] == b[j - p - 8]);
            }
        }
    }
    lemma_first_match_is_found(text, close, inner, end);
    assert(text.subrange(inner, end) =~= seq!['\n'] + b + seq!['\n']) by {
        assert forall|k: int| 0 <= k < n + 2 implies text.subrange(inner, end)[k] == (
        seq!['\n'] + b + seq!['\n'])[k] by {
            assert(text[p + (7 + k)] == encoding(s)[7 + k]);
            if 0 < k <= n {
                assert(encoding(s)[8 + (k - 1)] == b[k - 1]);
            }
        }
    }
    lemma_trim_line_breaks(b);
}

/// The reader of documents reads the lines of `s` as the entries that they
/// spell out.
pub open spec fn lines_read_as_written(s: StateView) -> bool {
    match document_of(block_text(s)) {
        Some(doc) => same_fields(doc, written_entries(s)),
        None => false,
    }
}

/// Decoding a message that holds the encoding of a valid recruitment `s`,
/// with no opening marker before it, gives what the document read from the
/// lines of `s` gives; and it gives `s` itself wherever the reader of
/// documents reads those lines as the entries that they spell out.
pub proof fn lemma_decode_of_encoding(s: StateView, prefix: Seq<char>, suffix: Seq<char>)
    requires
        valid(s),
        find_from(prefix, open_marker(), 0) is None,
    ensures
        decoding(prefix + encoding(s) + suffix) == (match document_of(block_text(s)) {
            Some(doc) => state_of_document(doc),
            None => Err::<StateView, DecodeError>(DecodeError::Malformed),
        }),
        lines_read_as_written(s) ==> decoding(prefix + encoding(s) + suffix) == Ok::<
            StateView,
            DecodeError,
        >(s),
{
    lemma_fragment_of_encoding(s, prefix, suffix);
    match document_of(block_text(s)) {
        Some(doc) => {
            if same_fields(doc, written_entries(s)) {
                lemma_written_entries_give_state(s, doc);
            }
        },
        None => {},
    }
}

/// Text without an opening marker gets none by standing between two texts
/// without backticks, as long as what follows it does not start with one of
/// the marker's letters.
pub proof fn lemma_no_marker_between(a: Seq<char>, t: Seq<char>, b: Seq<char>)
    requires
        no_backtick(a),
        no_backtick(b),
        find_from(t, open_marker(), 0) is None,
        b.len() > 0 ==> b[0] != 't' && b[0] != 'o' && b[0] != 'm' && b[0] != 'l',
    ensures
        find_from(a + t + b, open_marker(), 0) is None,
{
    let whole = a + t + b;
    let open = open_marker();
    let lo = a.len() as int;
    let hi = (a.len() + t.len()) as int;
    crate::text::lemma_find_from_is_first(t, open, 0);
    crate::text::lemma_find_from_is_first(whole, open, 0);
    assert forall|j: int| 0 <= j implies !matches_at(whole, open, j) by {
        if matches_at(whole, open, j) {
            let m = whole.subrange(j, j + 7);
            assert forall|k: int| 0 <= k < 7 implies whole[j + k] == #[trigger] open[k] by {
                assert(m[k] == whole[j + k]);
            }
            assert(open[0] == '`' && open[1] == '`' && open[2] == '`');
            assert(open[3] == 't' && open[4] == 'o' && open[5] == 'm' && open[6] == 'l');
            assert forall|k: int| 0 <= k < 3 implies #[trigger] open[k] == '`' && lo <= j + k < hi by {
                assert(whole[j + k] == open[k]);
                if j + k < lo {
                    assert(whole[j + k] == a[j + k]);
                } else if j + k >= hi {
                    assert(whole[j + k] == b[j + k - hi]);
                }
            }
            assert(open[0] == '`' && lo <= j + 0 < hi);
            assert(open[2] == '`' && lo <= j + 2 < hi);
            if j + 7 <= hi {
                assert(t.subrange(j - lo, j - lo + 7) =~= open) by {
                    assert forall|k: int| 0 <= k < 7 implies t.subrange(j - lo, j - lo + 7)[k]
                        == open[k] by {
                        assert(whole[j + k] == t[j - lo + k]);
                    }
                }
                assert(matches_at(t, open, j - lo));
            } else {
                let k = hi - j;
                assert(3 <= k < 7);
                assert(whole[j + k] == open[k]);
                assert(whole[hi] == b[0]);
            }
        }
    }
}

} // verus!
