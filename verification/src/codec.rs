//! Trusted boundary to the `toml` crate: parsing text into a
//! [`TomlTable`](crate::value::TomlTable) and rendering one back to text.
//!
//! Only the conversions here are trusted; everything that inspects or
//! rewrites a document is verified against the table model.

use vstd::prelude::*;

use core::str::FromStr;

use crate::value::{EntryModel, TomlEntry, TomlTable, TomlValue};

verus! {

#[verifier::external_type_specification]
#[verifier::external_body]
#[verifier::reject_recursive_types(K)]
#[verifier::reject_recursive_types(V)]
pub struct ExTomlMap<K, V>(toml::map::Map<K, V>);

/// The model of the table that TOML text parses to, or `None` where the
/// text is not valid TOML. Defined entirely by what `toml::Table::from_str`
/// accepts and returns.
pub uninterp spec fn toml_doc(text: Seq<char>) -> Option<Seq<EntryModel>>;

/// The text that a table with the given model renders to, or `None`
/// where the serializer reports an error. Defined entirely by what
/// `toml::to_string_pretty` returns; deterministic in the model, which
/// fixes the entry order and every entry's content.
pub uninterp spec fn toml_text(doc: Seq<EntryModel>) -> Option<Seq<char>>;

/// Carries one parsed `toml::Value` over into the table model, variant
/// by variant; uninspected variants stay opaque.
#[verifier::external_body]
fn value_from_toml(v: toml::Value) -> TomlValue {
    match v {
        toml::Value::String(s) => TomlValue::Text(s),
        toml::Value::Array(items) => TomlValue::List(
            items.into_iter().map(value_from_toml).collect(),
        ),
        toml::Value::Table(t) => TomlValue::Table(TomlTable { entries: entries_from_toml(t) }),
        other => TomlValue::Opaque(other),
    }
}

/// Carries a parsed `toml` table over, pair by pair, in document order.
#[verifier::external_body]
fn entries_from_toml(t: toml::map::Map<String, toml::Value>) -> Vec<TomlEntry> {
    t.into_iter().map(|(key, v)| TomlEntry { key, value: value_from_toml(v) }).collect()
}

/// Carries one of our values back into a `toml::Value`, variant by
/// variant.
#[verifier::external_body]
fn value_to_toml(v: TomlValue) -> toml::Value {
    match v {
        TomlValue::Text(s) => toml::Value::String(s),
        TomlValue::List(items) => toml::Value::Array(
            items.into_iter().map(value_to_toml).collect(),
        ),
        TomlValue::Table(t) => toml::Value::Table(entries_to_toml(t.entries)),
        TomlValue::Opaque(other) => other,
    }
}

/// Carries our entries back into a `toml` table, pair by pair.
#[verifier::external_body]
fn entries_to_toml(entries: Vec<TomlEntry>) -> toml::map::Map<String, toml::Value> {
    entries.into_iter().map(|e| (e.key, value_to_toml(e.value))).collect()
}

/// Relies on `toml::Table::from_str`: parses TOML text into a table, or
/// fails exactly on text that is not a valid TOML document. Empty text
/// is a valid, empty document. On failure the parser's diagnostic is
/// returned as a plain string.
#[verifier::external_body]
pub(crate) fn parse_toml(text: &str) -> (r: Result<TomlTable, String>)
    ensures
        match r {
            Ok(t) => toml_doc(text@) == Some(t.model()) && (text@.len() == 0 ==> t.model()
                == Seq::<EntryModel>::empty()),
            Err(_) => toml_doc(text@) is None && text@.len() != 0,
        },
{
    match toml::Table::from_str(text) {
        Ok(t) => Ok(TomlTable { entries: entries_from_toml(t) }),
        Err(e) => Err(e.to_string()),
    }
}

/// Relies on `toml::to_string_pretty`: renders a table as TOML text, and
/// succeeds exactly where the serializer accepts the table's content —
/// which, like the text produced, depends on the table's model alone.
#[verifier::external_body]
pub(crate) fn render_toml(t: TomlTable) -> (r: Option<String>)
    ensures
        r is Some <==> toml_text(t.model()) is Some,
        r matches Some(s) ==> toml_text(t.model()) == Some(s@),
{
    toml::to_string_pretty(&entries_to_toml(t.entries)).ok()
}

} // verus!
