//! The fragment of a message that carries a recruitment's state: a block of
//! text between an opening and a closing marker, anywhere in the message.

use crate::text::{
    chars_of, find, find_from, lemma_find_from_is_first, string_of, trimmed, trimmed_slice,
};
use vstd::prelude::*;

verus! {

/// The marker that opens a fragment.
pub open spec fn open_marker() -> Seq<char> {
    seq!['`', '`', '`', 't', 'o', 'm', 'l']
}

/// The marker that closes a fragment.
pub open spec fn close_marker() -> Seq<char> {
    seq!['`', '`', '`']
}

/// The text between the first opening marker of `text` and the first
/// closing marker after it, without the white space around it; `None` where
/// `text` has no opening marker, or no closing marker after it.
pub open spec fn fragment_of(text: Seq<char>) -> Option<Seq<char>> {
    match find_from(text, open_marker(), 0) {
        None => None,
        Some(start) => {
            let inner = start + open_marker().len();
            match find_from(text, close_marker(), inner) {
                None => None,
                Some(end) => Some(trimmed(text.subrange(inner, end))),
            }
        },
    }
}

/// The opening marker, as characters.
pub fn open_marker_chars() -> (out: Vec<char>)
    ensures
        out@ == open_marker(),
{
    proof {
        reveal_strlit("```toml");
    }
    let out = chars_of("```toml");
    assert(out@ =~= open_marker());
    out
}

/// The closing marker, as characters.
pub fn close_marker_chars() -> (out: Vec<char>)
    ensures
        out@ == close_marker(),
{
    proof {
        reveal_strlit("```");
    }
    let out = chars_of("```");
    assert(out@ =~= close_marker());
    out
}

/// Whether `text` holds an opening marker.
pub fn has_open_marker(text: &str) -> (r: bool)
    ensures
        r == (find_from(text@, open_marker(), 0) is Some),
{
    let chars = chars_of(text);
    let open = open_marker_chars();
    find(&chars, &open, 0).is_some()
}

/// The fragment that `text` holds, if it holds one.
pub fn extract_block(text: &str) -> (r: Option<String>)
    ensures
        match r {
            Some(block) => fragment_of(text@) == Some(block@),
            None => fragment_of(text@) is None,
        },
{
    let chars = chars_of(text);
    let open = open_marker_chars();
    let close = close_marker_chars();
    match find(&chars, &open, 0) {
        None => None,
        Some(start) => {
            proof {
                lemma_find_from_is_first(chars@, open@, 0);
                assert(start + open@.len() <= chars@.len());
                assert(chars@.len() == chars.len());
            }
            let inner: usize = start + open.len();
            match find(&chars, &close, inner) {
                None => None,
                Some(end) => {
                    proof {
                        lemma_find_from_is_first(chars@, close@, inner as int);
                    }
                    let block = trimmed_slice(&chars, inner, end);
                    Some(string_of(&block))
                },
            }
        },
    }
}

} // verus!
