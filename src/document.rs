//! A TOML document held as plain values, and the lookups that the manifest
//! model makes in it.
use vstd::prelude::*;

verus! {

/// A TOML value as the manifest logic reads it. Floats and datetimes are
/// never read by that logic and are kept only as `Other`.
pub enum TomlValue {
    Str(String),
    Int(i64),
    Bool(bool),
    Array(Vec<TomlValue>),
    Table(Vec<(String, TomlValue)>),
    Other,
}

#[verifier::external_type_specification]
#[verifier::external_body]
pub struct ExTomlValue(toml::Value);

/// The document that a TOML text parses to, or `None` where the text is not
/// a well-formed TOML document.
pub uninterp spec fn toml_document(text: Seq<char>) -> Option<TomlValue>;

/// Relies on toml::from_str into toml::Table: the parsed document depends
/// on the text alone, and it is always a table.
#[verifier::external_body]
pub(crate) fn parse_document(text: &str) -> (r: Option<TomlValue>)
    ensures
        r == toml_document(text@),
        r matches Some(doc) ==> doc is Table,
{
    match toml::from_str::<toml::Table>(text) {
        Ok(t) => Some(TomlValue::Table(t.into_iter().map(|(k, v)| (k, value_model(v))).collect())),
        Err(_) => None,
    }
}

/// The conversion of `parse_document`'s result, kept apart because it
/// recurses: a value of the toml crate (toml::Value) becomes the same value
/// held as a `TomlValue`, variant for variant, moving fields only. It makes
/// no claim of its own.
#[verifier::external_body]
fn value_model(v: toml::Value) -> TomlValue {
    match v {
        toml::Value::String(s) => TomlValue::Str(s),
        toml::Value::Integer(i) => TomlValue::Int(i),
        toml::Value::Boolean(b) => TomlValue::Bool(b),
        toml::Value::Array(a) => TomlValue::Array(a.into_iter().map(value_model).collect()),
        toml::Value::Table(t) => TomlValue::Table(t.into_iter().map(|(k, x)| (k, value_model(x))).collect()),
        _ => TomlValue::Other,
    }
}

/// The value under `key` in a list of table entries: the first entry with
/// that key.
pub open spec fn entry_of(entries: Seq<(String, TomlValue)>, key: Seq<char>) -> Option<TomlValue>
    decreases entries.len(),
{
    if entries.len() == 0 {
        None
    } else if entries[0].0@ == key {
        Some(entries[0].1)
    } else {
        entry_of(entries.drop_first(), key)
    }
}

/// The value under `key` in `v`, where `v` is a table.
pub open spec fn field_of(v: TomlValue, key: Seq<char>) -> Option<TomlValue> {
    match v {
        TomlValue::Table(entries) => entry_of(entries@, key),
        _ => None,
    }
}

/// Looks `key` up in `v`; a value that is not a table has no fields.
pub fn get_field<'a>(v: &'a TomlValue, key: &String) -> (r: Option<&'a TomlValue>)
    ensures
        match r {
            Some(x) => field_of(*v, key@) == Some(*x),
            None => field_of(*v, key@) is None,
        },
{
    match v {
        TomlValue::Table(entries) => {
            assert(field_of(*v, key@) == entry_of(entries@, key@));
            let n = entries.len();
            let mut i: usize = 0;
            assert(entries@.skip(0) =~= entries@);
            while i < n
                invariant
                    i <= n,
                    n == entries@.len(),
                    field_of(*v, key@) == entry_of(entries@, key@),
                    entry_of(entries@, key@) == entry_of(entries@.skip(i as int), key@),
                decreases n - i,
            {
                let ghost rest = entries@.skip(i as int);
                assert(rest.drop_first() =~= entries@.skip(i + 1));
                assert(rest[0] == entries@[i as int]);
                if entries[i].0 == *key {
                    return Some(&entries[i].1);
                }
                i = i + 1;
            }
            None
        },
        _ => None,
    }
}

} // verus!
