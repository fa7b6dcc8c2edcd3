//! The boundary between JSON text and the [`Json`] tree.
//!
//! Parsing is done by `serde_json`; everything this crate believes about it
//! is stated here, on two named results: `json_text`, the tree (if any) that
//! a text parses to, and `tree_of`, the content of a parsed `serde_json`
//! value. All codec logic works on the [`Json`] tree and is verified.

use vstd::prelude::*;

use crate::json::{Json, JsonV};

verus! {

#[verifier::external_type_specification]
#[verifier::external_body]
pub struct ExValue(serde_json::Value);

/// The content of a parsed `serde_json` value, as a tree of this crate.
pub uninterp spec fn tree_of(v: serde_json::Value) -> JsonV;

/// The tree that a JSON text parses to, or `None` on text the grammar
/// rejects. Parsing is a function of the characters alone.
pub uninterp spec fn json_text(s: Seq<char>) -> Option<JsonV>;

/// Relies on `serde_json::from_str::<serde_json::Value>`: deterministic in
/// the input text, `Ok` exactly on well-formed JSON.
#[verifier::external_body]
fn parse_value(s: &str) -> (r: Option<serde_json::Value>)
    ensures
        match r {
            Some(v) => json_text(s@) == Some(tree_of(v)),
            None => json_text(s@) is None,
        },
{
    serde_json::from_str::<serde_json::Value>(s).ok()
}

/// Relies on `serde_json::Value`: the conversion rebuilds the tree variant
/// for variant. Objects come out in the parser's canonical key order with
/// distinct keys; a number outside the 64-bit integer ranges (in particular
/// a non-integral one), which no wire shape of this crate carries, reads as
/// null.
#[verifier::external_body]
fn value_to_tree(v: &serde_json::Value) -> (r: Json)
    ensures
        r@ == tree_of(*v),
{
    match v {
        serde_json::Value::Null => Json::Null,
        serde_json::Value::Bool(b) => Json::Bool(*b),
        serde_json::Value::Number(n) => match (n.as_i64(), n.as_u64()) {
            (Some(i), _) => Json::I64(i),
            (None, Some(u)) => Json::U64(u),
            _ => Json::Null,
        },
        serde_json::Value::String(s) => Json::Str(s.clone()),
        serde_json::Value::Array(a) => Json::Arr(a.iter().map(value_to_tree).collect()),
        serde_json::Value::Object(m) => Json::Obj(m.iter().map(|(k, w)| (k.clone(), value_to_tree(w))).collect()),
    }
}

/// Parses JSON text into a tree; `None` comes back exactly on text that the
/// grammar rejects.
pub fn parse_json(s: &str) -> (r: Option<Json>)
    ensures
        match r {
            Some(j) => json_text(s@) == Some(j@),
            None => json_text(s@) is None,
        },
{
    match parse_value(s) {
        Some(v) => Some(value_to_tree(&v)),
        None => None,
    }
}

} // verus!
