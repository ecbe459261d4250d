//! What the library reads out of JSON.
use vstd::prelude::*;

use crate::text::{option_text, texts};

verus! {

/// The strings in a JSON array of strings.
pub uninterp spec fn json_strings(json: Seq<char>) -> Option<Seq<Seq<char>>>;

/// The strings under two keys in each element of a JSON array.
pub uninterp spec fn json_pairs(json: Seq<char>, first: Seq<char>, second: Seq<char>) -> Option<
    Seq<(Option<Seq<char>>, Option<Seq<char>>)>,
>;

/// The string under a key in a JSON object.
pub uninterp spec fn json_text(body: Seq<u8>, key: Seq<char>) -> Option<Seq<char>>;

/// The texts in an optional list.
pub open spec fn option_texts(v: Option<Vec<String>>) -> Option<Seq<Seq<char>>> {
    match v {
        Some(list) => Some(texts(list@)),
        None => None,
    }
}

/// What an element has under two keys, as far as it has strings there.
pub type Record = (Option<String>, Option<String>);

/// The texts in a list of records.
pub open spec fn record_texts(v: Seq<Record>) -> Seq<(Option<Seq<char>>, Option<Seq<char>>)> {
    Seq::new(v.len(), |i: int| (option_text(v[i].0), option_text(v[i].1)))
}

/// `serde_json::from_str` into a list of strings: `None` where the text is not
/// a JSON array of strings. The outcome depends on the text alone.
#[verifier::external_body]
pub(crate) fn parse_strings(json: &str) -> (r: Option<Vec<String>>)
    ensures
        option_texts(r) == json_strings(json@),
{
    serde_json::from_str(json).ok()
}

/// `serde_json::from_str` into a list of values, with the strings that `get`
/// and `as_str` find under two keys in each: `None` where the text is not a
/// JSON array. The outcome depends on the text and the keys alone.
#[verifier::external_body]
pub(crate) fn parse_pairs(json: &str, first: &str, second: &str) -> (r: Option<Vec<Record>>)
    ensures
        (match r {
            Some(list) => Some(record_texts(list@)),
            None => None,
        }) == json_pairs(json@, first@, second@),
{
    let values: Vec<serde_json::Value> = serde_json::from_str(json).ok()?;
    let text = |v: &serde_json::Value, key: &str| v.get(key)?.as_str().map(str::to_owned);
    Some(values.iter().map(|v| (text(v, first), text(v, second))).collect())
}

/// `serde_json::from_slice` into a value, with the string that stands under a
/// key: `None` where the bytes are no JSON, or no string stands there. The
/// outcome depends on the bytes and the key alone.
#[verifier::external_body]
pub(crate) fn parse_text(body: &Vec<u8>, key: &str) -> (r: Option<String>)
    ensures
        option_text(r) == json_text(body@, key@),
{
    let value: serde_json::Value = serde_json::from_slice(body).ok()?;
    value[key].as_str().map(str::to_owned)
}

} // verus!
