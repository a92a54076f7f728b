//! Reading the text of a fragment as a TOML document, through the `toml`
//! crate. Nothing in this file is proved: each item states what the crate's
//! reader is taken to do.

use vstd::prelude::*;

verus! {

/// What a document holds under one key, as far as a recruitment reads it:
/// a string, an integer, a boolean, or a value of any other type.
pub enum Entry {
    Text(Seq<char>),
    Integer(int),
    Boolean(bool),
    Other,
}

/// A value read from a document.
#[derive(Clone, Debug, PartialEq, Eq)]
pub enum FieldValue {
    Text(String),
    Integer(i64),
    Boolean(bool),
    /// A float, a date, an array or a table.
    Other,
}

impl View for FieldValue {
    type V = Entry;

    open spec fn view(&self) -> Entry {
        match self {
            FieldValue::Text(s) => Entry::Text(s@),
            FieldValue::Integer(i) => Entry::Integer(*i as int),
            FieldValue::Boolean(b) => Entry::Boolean(*b),
            FieldValue::Other => Entry::Other,
        }
    }
}

/// `toml::map::Map`, the table of a document; opaque here.
#[verifier::external_type_specification]
#[verifier::external_body]
#[verifier::reject_recursive_types(K)]
#[verifier::reject_recursive_types(V)]
pub struct ExMap<K, V>(toml::map::Map<K, V>);

/// `toml::Value`, one value of a document; opaque here.
#[verifier::external_type_specification]
#[verifier::external_body]
pub struct ExValue(toml::Value);

/// `toml::de::Error`, the reader's error; opaque here.
#[verifier::external_type_specification]
#[verifier::external_body]
pub struct ExError(toml::de::Error);

/// The top-level entries that `toml::from_str` reads from `text` as a
/// table, or `None` where it rejects `text`.
pub uninterp spec fn document_of(text: Seq<char>) -> Option<Map<Seq<char>, Entry>>;

/// The entries that a table holds, by key.
pub uninterp spec fn table_entries(table: toml::Table) -> Map<Seq<char>, Entry>;

/// The entry of `doc` under `key`, if it has one.
pub open spec fn lookup(doc: Map<Seq<char>, Entry>, key: Seq<char>) -> Option<Entry> {
    if doc.dom().contains(key) {
        Some(doc[key])
    } else {
        None
    }
}

/// `toml::from_str` at the type `toml::Table`: reads `text` as a TOML
/// document. The contract only names the outcome: the table's entries are
/// those of `document_of(text)`, and an error comes exactly where that is
/// `None`.
#[verifier::external_body]
pub(crate) fn parse_document(text: &str) -> (r: Result<toml::Table, toml::de::Error>)
    ensures
        match r {
            Ok(table) => document_of(text@) == Some(table_entries(table)),
            Err(_) => document_of(text@) is None,
        },
{
    toml::from_str::<toml::Table>(text)
}

/// `toml::map::Map::get`: the value under `key`, if the table has that key,
/// handed out as a `FieldValue`: a string, an integer or a boolean with what
/// it holds, any other type as `Other`.
#[verifier::external_body]
pub(crate) fn table_get(table: &toml::Table, key: &str) -> (r: Option<FieldValue>)
    ensures
        match r {
            Some(value) => lookup(table_entries(*table), key@) == Some(value@),
            None => lookup(table_entries(*table), key@) is None,
        },
{
    match table.get(key) {
        Some(toml::Value::String(s)) => Some(FieldValue::Text(s.clone())),
        Some(toml::Value::Integer(i)) => Some(FieldValue::Integer(*i)),
        Some(toml::Value::Boolean(b)) => Some(FieldValue::Boolean(*b)),
        Some(toml::Value::Float(_)) => Some(FieldValue::Other),
        Some(toml::Value::Datetime(_)) => Some(FieldValue::Other),
        Some(toml::Value::Array(_)) => Some(FieldValue::Other),
        Some(toml::Value::Table(_)) => Some(FieldValue::Other),
        None => None,
    }
}

} // verus!
