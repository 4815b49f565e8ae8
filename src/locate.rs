//! Reading the path of the manifest out of what `cargo locate-project` prints.
use vstd::prelude::*;

verus! {

/// The string held under `key` in the JSON object that `text` holds; `None`
/// where `text` is not JSON, not an object, lacks `key`, or holds something
/// other than a string there.
pub uninterp spec fn json_string_member(text: Seq<char>, key: Seq<char>) -> Option<Seq<char>>;

/// Relies on serde_json::from_str into serde_json::Value, then
/// serde_json::Value::get and serde_json::Value::as_str: the member depends on
/// the text and the key alone.
#[verifier::external_body]
fn string_member(text: &str, key: &str) -> (r: Option<String>)
    ensures
        match r {
            Some(s) => json_string_member(text@, key@) == Some(s@),
            None => json_string_member(text@, key@) is None,
        },
{
    let value: serde_json::Value = serde_json::from_str(text).ok()?;
    value.get(key)?.as_str().map(|s| s.to_owned())
}

/// The path of the manifest in the output of `cargo locate-project`: the
/// string member `root` of the JSON object it prints.
pub fn manifest_path_from_locate_output(output: &str) -> (r: Option<String>)
    ensures
        match r {
            Some(path) => json_string_member(output@, "root"@) == Some(path@),
            None => json_string_member(output@, "root"@) is None,
        },
{
    string_member(output, "root")
}

} // verus!
