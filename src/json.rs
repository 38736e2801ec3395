//! A plain JSON tree, filled from serde_json's parser, and lookup of object keys.
use vstd::prelude::*;

verus! {

/// A JSON number as the parser classified it.
#[derive(Clone, Copy, Debug, PartialEq, Eq, Structural)]
pub enum Num {
    /// A non-negative integer.
    PosInt(u64),
    /// A negative integer.
    NegInt(i64),
    /// Any other number, held as the bit pattern of its IEEE-754 double.
    Float(u64),
}

/// A JSON value. An object keeps its entries in the order the parser gave them.
#[derive(Debug)]
pub enum Json {
    Null,
    Bool(bool),
    Num(Num),
    Str(String),
    Array(Vec<Json>),
    Object(Vec<(String, Json)>),
}

#[verifier::external_type_specification]
#[verifier::external_body]
pub struct ExValue(serde_json::Value);

#[verifier::external_type_specification]
#[verifier::external_body]
pub struct ExJsonNumber(serde_json::Number);

/// The tree that serde_json's parser builds from the given bytes, or `None`
/// where it reports an error.
pub uninterp spec fn parsed_json(b: Seq<u8>) -> Option<Json>;

/// Relies on serde_json::from_slice into a serde_json::Value: the outcome
/// depends on the bytes alone.
#[verifier::external_body]
pub fn parse_json(b: &[u8]) -> (r: Option<Json>)
    ensures
        r == parsed_json(b@),
{
    serde_json::from_slice::<serde_json::Value>(b).ok().map(from_value)
}

/// Converts serde_json's tree into `Json`, variant for variant; the second
/// half of `parse_json`.
#[verifier::external_body]
fn from_value(v: serde_json::Value) -> Json {
    match v {
        serde_json::Value::Null => Json::Null,
        serde_json::Value::Bool(b) => Json::Bool(b),
        serde_json::Value::Number(n) => Json::Num(from_number(&n)),
        serde_json::Value::String(s) => Json::Str(s),
        serde_json::Value::Array(a) => Json::Array(a.into_iter().map(from_value).collect()),
        serde_json::Value::Object(m) => Json::Object(
            m.into_iter().map(|(k, x)| (k, from_value(x))).collect(),
        ),
    }
}

/// Relies on serde_json::Number::as_u64, as_i64 and as_f64 to tell the three
/// kinds of number apart; used by `from_value`.
#[verifier::external_body]
fn from_number(n: &serde_json::Number) -> Num {
    match (n.as_u64(), n.as_i64()) {
        (Some(u), _) => Num::PosInt(u),
        (None, Some(i)) => Num::NegInt(i),
        (None, None) => Num::Float(n.as_f64().map_or(0, |x| x.to_bits())),
    }
}

/// The index of the first entry at or after `i` whose key is `k`.
pub open spec fn find_from(es: Seq<(String, Json)>, k: Seq<char>, i: int) -> Option<int>
    decreases es.len() - i,
{
    if i < 0 || i >= es.len() {
        None
    } else if es[i].0@ == k {
        Some(i)
    } else {
        find_from(es, k, i + 1)
    }
}

/// The value of the first entry whose key is `k`.
pub open spec fn lookup(es: Seq<(String, Json)>, k: Seq<char>) -> Option<Json> {
    match find_from(es, k, 0) {
        Some(i) => Some(es[i].1),
        None => None,
    }
}

/// If no entry in `[i, j)` has key `k`, the search from `i` goes on from `j`.
pub proof fn lemma_find_skips(es: Seq<(String, Json)>, k: Seq<char>, i: int, j: int)
    requires
        0 <= i <= j <= es.len(),
        forall|m: int| i <= m < j ==> es[m].0@ != k,
    ensures
        find_from(es, k, i) == find_from(es, k, j),
    decreases j - i,
{
    if i < j {
        lemma_find_skips(es, k, i + 1, j);
    }
}

/// Looks up the value of the first entry of an object whose key is `k`.
pub fn lookup_key<'a>(es: &'a Vec<(String, Json)>, k: &str) -> (r: Option<&'a Json>)
    ensures
        match r {
            Some(v) => lookup(es@, k@) == Some(*v),
            None => lookup(es@, k@) is None,
        },
{
    let key = k.to_owned();
    let mut i: usize = 0;
    while i < es.len()
        invariant
            i <= es.len(),
            key@ == k@,
            find_from(es@, k@, 0) == find_from(es@, k@, i as int),
        decreases es.len() - i,
    {
        if es[i].0 == key {
            return Some(&es[i].1);
        }
        i = i + 1;
    }
    None
}

} // verus!
