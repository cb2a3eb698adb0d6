//! JSON arrays and objects of strings, read and written with `serde_json`.

use vstd::prelude::*;

verus! {

/// The strings of a JSON array of strings, as `serde_json` reads it
/// (`None` when the text is not such an array).
pub uninterp spec fn json_string_array(json: Seq<char>) -> Option<Seq<Seq<char>>>;

/// The JSON text `serde_json` writes for a list of strings.
pub uninterp spec fn string_array_json(v: Seq<Seq<char>>) -> Seq<char>;

/// The texts of a list of strings.
pub open spec fn texts(v: Seq<String>) -> Seq<Seq<char>> {
    v.map_values(|s: String| s@)
}

/// `serde_json::from_str::<Vec<String>>`: the array's strings, or `None`
/// when the text is not a JSON array of strings.
#[verifier::external_body]
pub(crate) fn parse_string_array(json: &str) -> (r: Option<Vec<String>>)
    ensures
        match r {
            Some(v) => json_string_array(json@) == Some(texts(v@)),
            None => json_string_array(json@) is None,
        },
{
    serde_json::from_str::<Vec<String>>(json).ok()
}

/// `serde_json::to_string` on a list of strings. Serialising strings into
/// an in-memory buffer cannot fail (serde_json's string serialiser writes
/// to a `Vec<u8>`, whose writes never fail), so the result is `Some`.
#[verifier::external_body]
pub(crate) fn string_array_to_json(v: &Vec<String>) -> (r: Option<String>)
    ensures
        r is Some,
        r matches Some(s) ==> s@ == string_array_json(texts(v@)),
{
    serde_json::to_string(v).ok()
}

/// The entries of a JSON object whose values are all strings, as
/// `serde_json` reads it into a `BTreeMap<String, String>` and that map
/// hands them out (`None` when the text is not such an object).
pub uninterp spec fn json_string_object(json: Seq<char>) -> Option<Seq<(Seq<char>, Seq<char>)>>;

/// The JSON text `serde_json` writes for the `BTreeMap<String, String>` built
/// from a list of key/value pairs.
pub uninterp spec fn string_object_json(pairs: Seq<(Seq<char>, Seq<char>)>) -> Seq<char>;

/// The map of key/value pairs, a later pair for a key replacing an earlier
/// one.
pub open spec fn pairs_map(p: Seq<(Seq<char>, Seq<char>)>) -> Map<Seq<char>, Seq<char>>
    decreases p.len(),
{
    if p.len() == 0 {
        Map::empty()
    } else {
        pairs_map(p.drop_last()).insert(p.last().0, p.last().1)
    }
}

/// No key occurs twice.
pub open spec fn keys_distinct(p: Seq<(Seq<char>, Seq<char>)>) -> bool {
    forall|i: int, j: int| 0 <= i < j < p.len() ==> p[i].0 != p[j].0
}

/// The texts of a list of string pairs.
pub open spec fn text_pairs(v: Seq<(String, String)>) -> Seq<(Seq<char>, Seq<char>)> {
    v.map_values(|p: (String, String)| (p.0@, p.1@))
}

/// `serde_json::from_str::<BTreeMap<String, String>>`: the object's
/// entries in the map's order, or `None` when the text is not a JSON
/// object of strings.
#[verifier::external_body]
pub(crate) fn parse_string_object(json: &str) -> (r: Option<Vec<(String, String)>>)
    ensures
        match r {
            Some(v) => json_string_object(json@) == Some(text_pairs(v@)),
            None => json_string_object(json@) is None,
        },
{
    match serde_json::from_str::<std::collections::BTreeMap<String, String>>(json) {
        Ok(m) => Some(m.into_iter().collect()),
        Err(_) => None,
    }
}

/// `serde_json::to_string` on the `BTreeMap<String, String>` of the pairs.
/// A map with string keys and values serialises into an in-memory buffer
/// without failure, so the result is `Some`; an empty map is written `{}`;
/// and reading the text back with [`parse_string_object`] gives the map's
/// entries: each key once, with the value the pairs last give it.
#[verifier::external_body]
pub(crate) fn string_object_to_json(pairs: &Vec<(String, String)>) -> (r: Option<String>)
    ensures
        r is Some,
        r matches Some(s) ==> s@ == string_object_json(text_pairs(pairs@)),
        r matches Some(s) ==> (pairs@.len() == 0 ==> s@ == "{}"@),
        r matches Some(s) ==> (json_string_object(s@) matches Some(e) && keys_distinct(e) && pairs_map(e)
            == pairs_map(text_pairs(pairs@))),
{
    let map: std::collections::BTreeMap<String, String> = pairs.iter().cloned().collect();
    serde_json::to_string(&map).ok()
}

} // verus!
