//! Response headers as the JSON text in which they are stored.

use std::collections::HashMap;
use vstd::prelude::*;
use crate::types::text_map;

verus! {

/// The map of texts that `serde_json::from_str` reads in a JSON text, where it
/// reads one.
pub uninterp spec fn json_text_map(text: Seq<char>) -> Option<Map<Seq<char>, Seq<char>>>;

/// `serde_json::from_str` into a map of strings. Its error is not kept.
#[verifier::external_body]
pub(crate) fn headers_from_json(text: &str) -> (res: Option<HashMap<String, String>>)
    ensures
        match res {
            Some(headers) => json_text_map(text@) == Some(text_map(headers@)),
            None => json_text_map(text@) is None,
        },
{
    serde_json::from_str(text).ok()
}

/// `serde_json::to_string` of a map of strings. It does not fail on one, and
/// what it writes reads back as the same map; in which order it writes the
/// entries is not said.
#[verifier::external_body]
pub(crate) fn headers_to_json(headers: &HashMap<String, String>) -> (res: String)
    ensures
        json_text_map(res@) == Some(text_map(headers@)),
{
    serde_json::to_string(headers).unwrap_or_default()
}

} // verus!
