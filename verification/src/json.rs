//! The one place where JSON is read: the table of interface strings.

use std::collections::BTreeMap;
use vstd::prelude::*;

verus! {

/// `serde_json::Error`, carried only far enough to be turned into a
/// [`crate::app_state::LoadError`].
#[verifier::external_type_specification]
#[verifier::external_body]
pub struct ExJsonError(serde_json::Error);

/// The entries that `serde_json::from_str` reads from `json` as a map from
/// string to string, in ascending order of their keys, or `None` where it
/// reports an error. The reading itself is not described here; the only claim
/// is that it depends on the text alone.
pub uninterp spec fn parsed_string_table(json: Seq<char>) -> Option<Seq<(Seq<char>, Seq<char>)>>;

/// Calls `serde_json::from_str` to read `json` as a `BTreeMap<String, String>`
/// and lists its entries in the map's order. The contract only names the
/// outcome: the entries on success, nothing on failure.
#[verifier::external_body]
pub(crate) fn parse_string_table(json: &str) -> (parsed: Result<
    Vec<(String, String)>,
    serde_json::Error,
>)
    ensures
        parsed matches Ok(entries) ==> parsed_string_table(json@) == Some(entries.deep_view()),
        parsed is Err ==> parsed_string_table(json@) is None,
{
    match serde_json::from_str::<BTreeMap<String, String>>(json) {
        Ok(table) => Ok(table.into_iter().collect()),
        Err(error) => Err(error),
    }
}

} // verus!
