//! Serialization of a resource with an arbitrary serde-serializable payload.
//!
//! The envelope — braces, commas, key names, omission of absent parts,
//! recursive embedding — is rendered by the verified serializer in
//! [`crate::render`]. Only the payload itself goes through serde: each
//! payload in the tree is rendered by `serde_json`, checked to be a JSON
//! object, and its members are spliced into a rendered resource
//! (`HalResource<String>`) that mirrors the resource's envelope exactly.

use vstd::prelude::*;
use vstd::string::StrSliceExecFns;
use vstd::string::StringExecFns;

use crate::model::HalResource;
use crate::render::rendered_json;
use crate::render::serialize_rendered;

verus! {

/// The error type of serde_json, carried through unchanged.
#[verifier::external_type_specification]
#[verifier::external_body]
pub struct ExSerdeJsonError(serde_json::Error);

/// Why a resource could not be serialized.
pub enum SerializeError {
    /// The payload's own serializer failed; its error, verbatim.
    Payload(serde_json::Error),
    /// The payload serialized to something other than a JSON object, so
    /// its members cannot be flattened into the enclosing resource object.
    PayloadNotObject,
}

/// Relies on serde_json::to_string: renders a serializable value as the
/// one JSON text its Serialize implementation describes, or returns the
/// serializer's error. Nothing is assumed about the text; the callers
/// check its shape themselves.
#[verifier::external_body]
fn to_json_text<T: serde::Serialize>(data: &T) -> Result<String, serde_json::Error> {
    serde_json::to_string(data)
}

/// Whether a JSON text is an object: it opens and closes with a brace.
pub open spec fn is_object_text(s: Seq<char>) -> bool {
    s.len() >= 2 && s[0] == '{' && s[s.len() - 1] == '}'
}

/// The members of a JSON object text: everything between its braces.
pub open spec fn object_members(s: Seq<char>) -> Seq<char> {
    s.subrange(1, s.len() - 1)
}

/// Extracts the member text of a JSON object, rejecting any JSON text
/// that is not an object.
fn object_fields(s: &str) -> (r: Option<String>)
    ensures
        match r {
            Some(t) => is_object_text(s@) && t@ == object_members(s@),
            None => !is_object_text(s@),
        },
{
    let n = s.unicode_len();
    if n < 2 {
        return None;
    }
    if s.get_char(0) != '{' {
        return None;
    }
    if s.get_char(n - 1) != '}' {
        return None;
    }
    let mid = s.substring_char(1, n - 1);
    Some(String::from_str(mid))
}

/// Whether a rendered resource mirrors `r`: the same links block, the same
/// embedded relation names in the same order, every sub-resource mirrored
/// recursively. The payload slots are unconstrained: they are whatever the
/// payloads' own serializer produced.
pub open spec fn mirrors<T>(r: HalResource<T>, q: HalResource<String>) -> bool
    decreases r,
{
    &&& q._links == r._links
    &&& match (r._embedded, q._embedded) {
        (Option::None, Option::None) => true,
        (Option::Some(a), Option::Some(b)) => {
            &&& a@.len() == b@.len()
            &&& forall|i: int|
                0 <= i < a@.len() ==> (#[trigger] b@[i]).0@ == a@[i].0@ && mirrors(
                    a@[i].1,
                    b@[i].1,
                )
        },
        _ => false,
    }
}

/// Renders every payload in the tree through serde, keeping the envelope:
/// the result mirrors `r` and holds each payload's JSON object members in
/// its payload slot. The first payload serde rejects, or whose JSON text
/// is not an object, fails the whole rendering.
pub fn render_resource<T: serde::Serialize>(r: &HalResource<T>) -> (out: Result<
    HalResource<String>,
    SerializeError,
>)
    ensures
        out matches Ok(q) ==> mirrors(*r, q),
    decreases *r,
{
    let text = match to_json_text(&r.data) {
        Ok(t) => t,
        Err(e) => {
            return Err(SerializeError::Payload(e));
        },
    };
    let fields = match object_fields(text.as_str()) {
        Some(f) => f,
        None => {
            return Err(SerializeError::PayloadNotObject);
        },
    };
    let links = match &r._links {
        None => None,
        Some(ls) => Some(ls.clone()),
    };
    let embedded = match &r._embedded {
        None => None,
        Some(v) => {
            let mut done: Vec<(String, HalResource<String>)> = Vec::new();
            let n = v.len();
            let mut i: usize = 0;
            while i < n
                invariant
                    r._embedded == Some(*v),
                    n == v@.len(),
                    i <= n,
                    done@.len() == i,
                    forall|j: int|
                        0 <= j < i ==> (#[trigger] done@[j]).0@ == v@[j].0@ && mirrors(
                            v@[j].1,
                            done@[j].1,
                        ),
                decreases n - i,
            {
                proof {
                    assert(decreases_to!(*r => r._embedded));
                    assert(decreases_to!(r._embedded => r._embedded->0));
                    assert(r._embedded->0 == *v);
                    assert(decreases_to!(*v => v@));
                    assert(decreases_to!(v@ => v@[i as int]));
                    assert(decreases_to!(v@[i as int] => v@[i as int].1));
                }
                let entry = &v[i];
                let sub = match render_resource(&entry.1) {
                    Ok(q) => q,
                    Err(e) => {
                        return Err(e);
                    },
                };
                done.push((entry.0.clone(), sub));
                i = i + 1;
            }
            Some(done)
        },
    };
    let q = HalResource { _links: links, _embedded: embedded, data: fields };
    assert(mirrors(*r, q));
    Ok(q)
}

/// Serializes a resource, payload included, to its JSON object.
///
/// The envelope of the output is exactly the verified rendering of `r`'s
/// envelope: some rendered resource mirrors `r` and the output is its
/// [`rendered_json`], so keys, commas, braces, omission of absent parts
/// and the nesting of embedded sub-resources never depend on the payload.
/// Only the member texts in the payload slots come from serde.
pub fn serialize_resource<T: serde::Serialize>(r: &HalResource<T>) -> (out: Result<
    String,
    SerializeError,
>)
    ensures
        out matches Ok(s) ==> exists|q: HalResource<String>|
            #[trigger] mirrors(*r, q) && s@ == rendered_json(q),
{
    match render_resource(r) {
        Ok(q) => {
            let s = serialize_rendered(&q);
            proof {
                assert(mirrors(*r, q) && s@ == rendered_json(q));
            }
            Ok(s)
        },
        Err(e) => Err(e),
    }
}

} // verus!
