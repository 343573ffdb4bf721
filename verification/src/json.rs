//! Trusted view of serde_json for reading device replies.
//!
//! The library builds its outgoing datagrams itself, but replies from the
//! device are arbitrary JSON and are decoded by serde_json. A parsed
//! document is modeled as a map from JSON-Pointer paths (RFC 6901, with `~1`
//! and `~0` escaping inside reference tokens) to the leaves they address: a
//! scalar leaf's own node has the empty path, an object's or array's leaves
//! have their full pointer paths, and an empty object or array is itself a
//! leaf. The two spec names below are given meaning only by the wrapper
//! contracts in this file; everything downstream of them is verified.
//!
//! The pointer-lookup contract is stated only for paths without `'~'`: such
//! a path is its own canonical spelling, so it splits into reference tokens
//! exactly at its slashes, and the keys of the model that extend it
//! token-wise are precisely the leaves below the addressed node. (A path
//! with `'~'` could be read two ways — as an escape or as a literal — and
//! the contract claims nothing about it.) Every path this crate looks up is
//! a fixed `/msg/...` string, which satisfies the premise.

use vstd::prelude::*;

verus! {

/// A leaf of a parsed JSON document: numbers are split by whether they have
/// a `u64` value, since that is the only numeric form the protocol reads.
pub enum JsonLeaf {
    /// A number representable as a `u64`.
    U64(u64),
    /// An integer number with no `u64` form (negative or too large).
    IntOther,
    /// A floating-point number.
    Float,
    /// A string, by its decoded characters.
    Str(Seq<char>),
    Bool(bool),
    Null,
    EmptyObj,
    EmptyArr,
}

#[verifier::external_type_specification]
#[verifier::external_body]
pub struct ExValue(serde_json::Value);

#[verifier::external_type_specification]
#[verifier::external_body]
pub struct ExJsonError(serde_json::Error);

/// The leaves of the JSON document held by a parsed value, keyed by
/// JSON-Pointer path.
pub uninterp spec fn value_fields(v: serde_json::Value) -> Map<Seq<char>, JsonLeaf>;

/// The leaves of the JSON document encoded by a byte string, or `None` when
/// the bytes are not a JSON document.
pub uninterp spec fn json_fields(s: Seq<u8>) -> Option<Map<Seq<char>, JsonLeaf>>;

/// A pointer path that contains no `'~'`: free of escapes, it splits into
/// reference tokens exactly at its slashes.
pub open spec fn clean_path(p: Seq<char>) -> bool {
    forall|i: int| 0 <= i < p.len() ==> p[i] != '~'
}

/// A relative key that is token-aligned: empty (the node itself) or a
/// further descent starting at a token boundary.
pub open spec fn aligned_key(k: Seq<char>) -> bool {
    k.len() == 0 || k[0] == '/'
}

/// Whether some node (leaf or interior) sits at path `p` of a document:
/// either a leaf lies at `p` itself, or leaves lie below it, at `p`
/// extended across a token boundary.
pub open spec fn node_exists(m: Map<Seq<char>, JsonLeaf>, p: Seq<char>) -> bool {
    m.dom().contains(p) || exists|s: Seq<char>|
        aligned_key(s) && s.len() > 0 && m.dom().contains(#[trigger] (p + s))
}

/// The subdocument rooted at path `p`: the leaves of the whole document
/// whose keys extend `p` token-wise, re-keyed relative to `p`.
pub open spec fn at_path(m: Map<Seq<char>, JsonLeaf>, p: Seq<char>) -> Map<Seq<char>, JsonLeaf> {
    Map::new(
        |k: Seq<char>| aligned_key(k) && m.dom().contains(p + k),
        |k: Seq<char>| m[p + k],
    )
}

/// The document has a string leaf at path `p`.
pub open spec fn has_str(m: Map<Seq<char>, JsonLeaf>, p: Seq<char>) -> bool {
    m.dom().contains(p) && m[p] is Str
}

/// The document has a number leaf with an exact `u64` value at path `p`.
pub open spec fn has_u64(m: Map<Seq<char>, JsonLeaf>, p: Seq<char>) -> bool {
    m.dom().contains(p) && m[p] is U64
}

/// The document has a number leaf at path `p`.
pub open spec fn has_num(m: Map<Seq<char>, JsonLeaf>, p: Seq<char>) -> bool {
    m.dom().contains(p) && (m[p] is U64 || m[p] is IntOther || m[p] is Float)
}

/// The `u64` reading of a number leaf, zero when the number has no `u64`
/// form.
pub open spec fn num_or_zero(l: JsonLeaf) -> u64 {
    match l {
        JsonLeaf::U64(n) => n,
        _ => 0,
    }
}

/// Relies on serde_json::from_slice::<Value>: parsing is deterministic in
/// the bytes and fails exactly when they are not a JSON document.
#[verifier::external_body]
fn json_from_slice(b: &[u8]) -> (r: Result<serde_json::Value, serde_json::Error>)
    ensures
        r is Ok <==> json_fields(b@) is Some,
        r matches Ok(v) ==> value_fields(v) == json_fields(b@)->0,
{
    serde_json::from_slice(b)
}

/// Relies on serde_json::Value::pointer: for an escape-free path, the
/// lookup returns the node at that path exactly when one exists, and the
/// returned node holds the leaves below the path.
#[verifier::external_body]
fn json_pointer<'a>(v: &'a serde_json::Value, path: &str) -> (r: Option<&'a serde_json::Value>)
    ensures
        clean_path(path@) ==> (r is Some <==> node_exists(value_fields(*v), path@)),
        clean_path(path@) ==> (r matches Some(w) ==> value_fields(*w) == at_path(
            value_fields(*v),
            path@,
        )),
{
    v.pointer(path)
}

/// Relies on serde_json::Value::as_str: returns the decoded characters of a
/// string node and nothing for any other node.
#[verifier::external_body]
fn json_as_str(v: &serde_json::Value) -> (r: Option<String>)
    ensures
        r is Some <==> has_str(value_fields(*v), Seq::<char>::empty()),
        r matches Some(s) ==> value_fields(*v)[Seq::<char>::empty()] == JsonLeaf::Str(s@),
{
    v.as_str().map(|s| s.to_string())
}

/// Relies on serde_json::Value::as_u64: returns the value of a number node
/// representable as `u64` and nothing otherwise.
#[verifier::external_body]
fn json_as_u64(v: &serde_json::Value) -> (r: Option<u64>)
    ensures
        r is Some <==> has_u64(value_fields(*v), Seq::<char>::empty()),
        r matches Some(n) ==> value_fields(*v)[Seq::<char>::empty()] == JsonLeaf::U64(n),
{
    v.as_u64()
}

/// Relies on serde_json::Value::is_number: true exactly on number nodes.
#[verifier::external_body]
fn json_is_number(v: &serde_json::Value) -> (r: bool)
    ensures
        r <==> has_num(value_fields(*v), Seq::<char>::empty()),
{
    v.is_number()
}

/// Parses a reply into a JSON value; `None` when it is not JSON.
pub fn parse_value(b: &[u8]) -> (r: Option<serde_json::Value>)
    ensures
        r is Some <==> json_fields(b@) is Some,
        r matches Some(v) ==> value_fields(v) == json_fields(b@)->0,
{
    match json_from_slice(b) {
        Ok(v) => Some(v),
        Err(_) => None,
    }
}

/// Reads the string leaf at an escape-free pointer path of a parsed
/// document.
pub fn str_at(v: &serde_json::Value, path: &str) -> (r: Option<String>)
    requires
        clean_path(path@),
    ensures
        r is Some <==> has_str(value_fields(*v), path@),
        r matches Some(s) ==> value_fields(*v)[path@] == JsonLeaf::Str(s@),
{
    proof {
        assert(path@ + Seq::<char>::empty() =~= path@);
    }
    match json_pointer(v, path) {
        None => None,
        Some(w) => {
            let r = json_as_str(w);
            proof {
                let m = value_fields(*v);
                let sub = at_path(m, path@);
                assert(sub.dom().contains(Seq::<char>::empty()) == m.dom().contains(
                    path@ + Seq::<char>::empty(),
                ));
                if sub.dom().contains(Seq::<char>::empty()) {
                    assert(sub[Seq::<char>::empty()] == m[path@ + Seq::<char>::empty()]);
                }
            }
            r
        },
    }
}

/// Reads the number leaf at an escape-free pointer path of a parsed
/// document: its `u64` value, or zero for a number with no `u64` form.
/// `None` when the path is missing or does not hold a number.
pub fn num_at(v: &serde_json::Value, path: &str) -> (r: Option<u64>)
    requires
        clean_path(path@),
    ensures
        r is Some <==> has_num(value_fields(*v), path@),
        r matches Some(n) ==> num_or_zero(value_fields(*v)[path@]) == n,
{
    proof {
        assert(path@ + Seq::<char>::empty() =~= path@);
    }
    match json_pointer(v, path) {
        None => None,
        Some(w) => {
            proof {
                let m = value_fields(*v);
                let sub = at_path(m, path@);
                assert(sub.dom().contains(Seq::<char>::empty()) == m.dom().contains(
                    path@ + Seq::<char>::empty(),
                ));
                if sub.dom().contains(Seq::<char>::empty()) {
                    assert(sub[Seq::<char>::empty()] == m[path@ + Seq::<char>::empty()]);
                }
            }
            if !json_is_number(w) {
                None
            } else {
                match json_as_u64(w) {
                    Some(n) => Some(n),
                    None => Some(0),
                }
            }
        },
    }
}

/// Reads the number leaf at an escape-free pointer path only when it has
/// an exact `u64` value.
pub fn u64_at(v: &serde_json::Value, path: &str) -> (r: Option<u64>)
    requires
        clean_path(path@),
    ensures
        r is Some <==> has_u64(value_fields(*v), path@),
        r matches Some(n) ==> value_fields(*v)[path@] == JsonLeaf::U64(n),
{
    proof {
        assert(path@ + Seq::<char>::empty() =~= path@);
    }
    match json_pointer(v, path) {
        None => None,
        Some(w) => {
            let r = json_as_u64(w);
            proof {
                let m = value_fields(*v);
                let sub = at_path(m, path@);
                assert(sub.dom().contains(Seq::<char>::empty()) == m.dom().contains(
                    path@ + Seq::<char>::empty(),
                ));
                if sub.dom().contains(Seq::<char>::empty()) {
                    assert(sub[Seq::<char>::empty()] == m[path@ + Seq::<char>::empty()]);
                }
            }
            r
        },
    }
}

} // verus!
