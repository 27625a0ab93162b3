//! The HAL wire format for links and link blocks.
//!
//! Each serializer's contract pins its output exactly: a spec function
//! gives the full JSON text, character for character, so the omission rule
//! (absent optional fields leave no trace in the output, never a `null`)
//! and the literal key names are part of what is proved.

use vstd::prelude::*;
use vstd::string::StringExecFns;

use crate::model::HalLinks;
use crate::model::Link;
use crate::text::push_quoted;
use crate::text::quoted;

verus! {

/// The JSON rendering of a boolean.
pub open spec fn bool_text(b: bool) -> Seq<char> {
    if b {
        "true"@
    } else {
        "false"@
    }
}

/// One optional string-valued field: nothing at all when absent, otherwise
/// `key` (which carries its own leading comma and colon) followed by the
/// quoted value.
pub open spec fn opt_str_field(key: Seq<char>, v: Option<String>) -> Seq<char> {
    match v {
        None => Seq::<char>::empty(),
        Some(s) => key + quoted(s@),
    }
}

/// The members of a serialized [`Link`] object: `href` always first, then
/// each optional field that is present, in declaration order, under exactly
/// the keys `templated`, `type`, `deprecation`, `name`, `profile`, `title`
/// and `hreflang`. An absent field contributes nothing.
pub open spec fn link_body(l: Link) -> Seq<char> {
    "\"href\":"@ + quoted(l.href@) + (match l.templated {
        None => Seq::<char>::empty(),
        Some(b) => ",\"templated\":"@ + bool_text(b),
    }) + opt_str_field(",\"type\":"@, l._type) + opt_str_field(",\"deprecation\":"@, l.deprecation)
        + opt_str_field(",\"name\":"@, l.name) + opt_str_field(",\"profile\":"@, l.profile)
        + opt_str_field(",\"title\":"@, l.title) + opt_str_field(",\"hreflang\":"@, l.hreflang)
}

/// The complete JSON object rendering a [`Link`].
pub open spec fn link_json(l: Link) -> Seq<char> {
    "{"@ + link_body(l) + "}"@
}

/// One optional link-valued relation: nothing at all when absent, otherwise
/// `key` followed by the link object.
pub open spec fn opt_link_field(key: Seq<char>, v: Option<Link>) -> Seq<char> {
    match v {
        None => Seq::<char>::empty(),
        Some(l) => key + link_json(l),
    }
}

/// The members of a serialized [`HalLinks`] object: the mandatory relation
/// first, under the literal key `self`, then each optional relation that is
/// present, in declaration order. An absent relation contributes nothing.
pub open spec fn links_body(ls: HalLinks) -> Seq<char> {
    "\"self\":"@ + link_json(ls._self) + opt_link_field(",\"related\":"@, ls.related)
        + opt_link_field(",\"next\":"@, ls.next) + opt_link_field(",\"search\":"@, ls.search)
        + opt_link_field(",\"previous\":"@, ls.previous)
}

/// The complete JSON object rendering a [`HalLinks`].
pub open spec fn links_json(ls: HalLinks) -> Seq<char> {
    "{"@ + links_body(ls) + "}"@
}

/// Appends one optional string-valued field.
fn push_opt_str_field(out: &mut String, key: &str, v: &Option<String>)
    ensures
        final(out)@ == old(out)@ + opt_str_field(key@, *v),
{
    match v {
        None => {},
        Some(s) => {
            out.append(key);
            push_quoted(out, s.as_str());
            assert(out@ =~= old(out)@ + opt_str_field(key@, *v));
        },
    }
}

/// Appends the JSON object rendering `l`.
#[verifier::rlimit(60)]
fn push_link(out: &mut String, l: &Link)
    ensures
        final(out)@ == old(out)@ + link_json(*l),
{
    out.append("{");
    out.append("\"href\":");
    push_quoted(out, l.href.as_str());
    match &l.templated {
        None => {},
        Some(b) => {
            out.append(",\"templated\":");
            if *b {
                out.append("true");
            } else {
                out.append("false");
            }
        },
    }
    push_opt_str_field(out, ",\"type\":", &l._type);
    push_opt_str_field(out, ",\"deprecation\":", &l.deprecation);
    push_opt_str_field(out, ",\"name\":", &l.name);
    push_opt_str_field(out, ",\"profile\":", &l.profile);
    push_opt_str_field(out, ",\"title\":", &l.title);
    push_opt_str_field(out, ",\"hreflang\":", &l.hreflang);
    out.append("}");
    assert(out@ =~= old(out)@ + link_json(*l));
}

/// Appends one optional link-valued relation.
fn push_opt_link_field(out: &mut String, key: &str, v: &Option<Link>)
    ensures
        final(out)@ == old(out)@ + opt_link_field(key@, *v),
{
    match v {
        None => {},
        Some(l) => {
            out.append(key);
            push_link(out, l);
            assert(out@ =~= old(out)@ + opt_link_field(key@, *v));
        },
    }
}

/// Appends the JSON object rendering `ls`.
#[verifier::rlimit(60)]
pub(crate) fn push_links(out: &mut String, ls: &HalLinks)
    ensures
        final(out)@ == old(out)@ + links_json(*ls),
{
    out.append("{");
    out.append("\"self\":");
    push_link(out, &ls._self);
    push_opt_link_field(out, ",\"related\":", &ls.related);
    push_opt_link_field(out, ",\"next\":", &ls.next);
    push_opt_link_field(out, ",\"search\":", &ls.search);
    push_opt_link_field(out, ",\"previous\":", &ls.previous);
    out.append("}");
    assert(out@ =~= old(out)@ + links_json(*ls));
}

/// Serializes one link to its JSON object.
///
/// The output is exactly [`link_json`]: every field set to a value appears
/// under its specified key, and every absent optional field is omitted
/// entirely.
pub fn serialize_link(l: &Link) -> (out: String)
    ensures
        out@ == link_json(*l),
{
    let mut out = String::new();
    push_link(&mut out, l);
    proof {
        assert(out@ =~= link_json(*l));
    }
    out
}

/// Serializes a links block to its JSON object.
///
/// The output is exactly [`links_json`]: the mandatory relation appears
/// under the literal key `"self"` whatever its internal name, and each of
/// the four optional relations appears if and only if it was set.
pub fn serialize_links(ls: &HalLinks) -> (out: String)
    ensures
        out@ == links_json(*ls),
{
    let mut out = String::new();
    push_links(&mut out, ls);
    proof {
        assert(out@ =~= links_json(*ls));
    }
    out
}

} // verus!
