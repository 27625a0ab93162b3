//! Properties of the wire format, stated and proved once for all values.

use vstd::prelude::*;

use crate::model::HalLinks;
use crate::model::HalResource;
use crate::model::Link;
use crate::render::comma_join;
use crate::render::embedded_entries;
use crate::render::embedded_part;
use crate::render::entry_text;
use crate::render::links_part;
use crate::render::rendered_json;
use crate::ser::link_body;
use crate::ser::link_json;
use crate::ser::links_json;
use crate::text::quoted;

verus! {

/// Flattening is lossless: a resource that holds only a payload renders as
/// exactly the payload's own JSON object — the same members between the
/// same braces — so its top-level keys are exactly the payload's own.
pub proof fn lemma_payload_only_flattening(r: HalResource<String>)
    requires
        r._links is None,
        r._embedded is None,
    ensures
        rendered_json(r) == "{"@ + r.data@ + "}"@,
{
    assert(links_part(r._links).len() == 0);
    assert(embedded_part(r._embedded).len() == 0);
    assert(comma_join(comma_join(links_part(r._links), embedded_part(r._embedded)), r.data@)
        == r.data@);
}

/// A link with every optional field absent renders as the object holding
/// the one member `href`, and no other key.
pub proof fn lemma_minimal_link_json(l: Link)
    requires
        l.templated is None,
        l._type is None,
        l.deprecation is None,
        l.name is None,
        l.profile is None,
        l.title is None,
        l.hreflang is None,
    ensures
        link_json(l) == "{\"href\":"@ + quoted(l.href@) + "}"@,
{
    assert(link_body(l) =~= "\"href\":"@ + quoted(l.href@));
    assert("{"@ + ("\"href\":"@ + quoted(l.href@)) =~= "{\"href\":"@ + quoted(l.href@)) by {
        reveal_strlit("{");
        reveal_strlit("\"href\":");
        reveal_strlit("{\"href\":");
    }
    assert(link_json(l) =~= "{\"href\":"@ + quoted(l.href@) + "}"@);
}

/// A links block with every optional relation absent renders as the object
/// holding the one member `self`, and no other key.
pub proof fn lemma_minimal_links_json(ls: HalLinks)
    requires
        ls.related is None,
        ls.next is None,
        ls.search is None,
        ls.previous is None,
    ensures
        links_json(ls) == "{\"self\":"@ + link_json(ls._self) + "}"@,
{
    assert("{"@ + ("\"self\":"@ + link_json(ls._self)) =~= "{\"self\":"@ + link_json(ls._self))
        by {
        reveal_strlit("{");
        reveal_strlit("\"self\":");
        reveal_strlit("{\"self\":");
    }
    assert(links_json(ls) =~= "{\"self\":"@ + link_json(ls._self) + "}"@);
}

/// The factory's minimal resource renders as exactly the self-link
/// envelope followed by the flattened payload members — and as the
/// envelope alone when the payload has no members — with no other keys.
#[verifier::rlimit(60)]
pub proof fn lemma_minimal_resource_json(r: HalResource<String>, href: String)
    requires
        r._links == Some(
            HalLinks {
                _self: Link {
                    href,
                    templated: None,
                    _type: None,
                    deprecation: None,
                    name: None,
                    profile: None,
                    title: None,
                    hreflang: None,
                },
                related: None,
                next: None,
                search: None,
                previous: None,
            },
        ),
        r._embedded is None,
    ensures
        r.data@.len() > 0 ==> rendered_json(r) == "{\"_links\":{\"self\":{\"href\":"@ + quoted(
            href@,
        ) + "}},"@ + r.data@ + "}"@,
        r.data@.len() == 0 ==> rendered_json(r) == "{\"_links\":{\"self\":{\"href\":"@ + quoted(
            href@,
        ) + "}}}"@,
{
    let ls = r._links->0;
    let q = quoted(href@);
    lemma_minimal_link_json(ls._self);
    lemma_minimal_links_json(ls);
    let lp = links_part(r._links);
    assert(lp == "\"_links\":"@ + ("{\"self\":"@ + ("{\"href\":"@ + q + "}"@) + "}"@));
    assert(lp =~= "\"_links\":{\"self\":{\"href\":"@ + q + "}}"@) by {
        reveal_strlit("\"_links\":");
        reveal_strlit("{\"self\":");
        reveal_strlit("{\"href\":");
        reveal_strlit("}");
        reveal_strlit("}}");
        reveal_strlit("\"_links\":{\"self\":{\"href\":");
    }
    assert(embedded_part(r._embedded).len() == 0);
    assert(comma_join(lp, embedded_part(r._embedded)) == lp);
    if r.data@.len() > 0 {
        assert(lp.len() > 0) by {
            reveal_strlit("\"_links\":{\"self\":{\"href\":");
        }
        assert(rendered_json(r) == "{"@ + (lp + ","@ + r.data@) + "}"@);
        assert("{"@ + (("\"_links\":{\"self\":{\"href\":"@ + q + "}}"@) + ","@ + r.data@) + "}"@
            =~= "{\"_links\":{\"self\":{\"href\":"@ + q + "}},"@ + r.data@ + "}"@) by {
            reveal_strlit("{");
            reveal_strlit(",");
            reveal_strlit("}}");
            reveal_strlit("}},");
            reveal_strlit("\"_links\":{\"self\":{\"href\":");
            reveal_strlit("{\"_links\":{\"self\":{\"href\":");
        }
    } else {
        assert(rendered_json(r) == "{"@ + lp + "}"@);
        assert("{"@ + ("\"_links\":{\"self\":{\"href\":"@ + q + "}}"@) + "}"@
            =~= "{\"_links\":{\"self\":{\"href\":"@ + q + "}}}"@) by {
            reveal_strlit("{");
            reveal_strlit("}");
            reveal_strlit("}}");
            reveal_strlit("}}}");
            reveal_strlit("\"_links\":{\"self\":{\"href\":");
            reveal_strlit("{\"_links\":{\"self\":{\"href\":");
        }
    }
}

/// Embedding one resource under a relation nests the embedded resource's
/// full rendering — links, embedded entries and payload members included —
/// as the value of that relation's key inside `_embedded`.
pub proof fn lemma_embed_one_json(r: HalResource<String>, name: String, inner: HalResource<String>)
    requires
        r._links is None,
        r.data@.len() == 0,
        r._embedded matches Some(v) && v@ == seq![(name, inner)],
    ensures
        rendered_json(r) == "{\"_embedded\":{"@ + quoted(name@) + ":"@ + rendered_json(inner)
            + "}}"@,
{
    let v = r._embedded->0;
    assert(v@[0] == (name, inner));
    assert(embedded_entries(v@) == entry_text((name, inner)));
    let ep = embedded_part(r._embedded);
    assert(ep == "\"_embedded\":{"@ + (quoted(name@) + ":"@ + rendered_json(inner)) + "}"@);
    assert(links_part(r._links).len() == 0);
    assert(comma_join(comma_join(links_part(r._links), ep), r.data@) =~= ep);
    assert("{"@ + ("\"_embedded\":{"@ + (quoted(name@) + ":"@ + rendered_json(inner)) + "}"@)
        + "}"@ =~= "{\"_embedded\":{"@ + quoted(name@) + ":"@ + rendered_json(inner) + "}}"@) by {
        reveal_strlit("{");
        reveal_strlit("}");
        reveal_strlit("}}");
        reveal_strlit("\"_embedded\":{");
        reveal_strlit("{\"_embedded\":{");
    }
}

/// Whatever the payload, a rendering that mirrors a factory-built resource
/// — a self link and nothing else in its envelope — serializes to exactly
/// the self-link envelope around the payload's members: no key but
/// `_links`, `self`, `href` and the payload's own ever appears.
pub proof fn lemma_minimal_mirror_json<T>(r: HalResource<T>, q: HalResource<String>, href: String)
    requires
        crate::payload::mirrors(r, q),
        r._links == Some(
            HalLinks {
                _self: Link {
                    href,
                    templated: None,
                    _type: None,
                    deprecation: None,
                    name: None,
                    profile: None,
                    title: None,
                    hreflang: None,
                },
                related: None,
                next: None,
                search: None,
                previous: None,
            },
        ),
        r._embedded is None,
    ensures
        q.data@.len() > 0 ==> rendered_json(q) == "{\"_links\":{\"self\":{\"href\":"@ + quoted(
            href@,
        ) + "}},"@ + q.data@ + "}"@,
        q.data@.len() == 0 ==> rendered_json(q) == "{\"_links\":{\"self\":{\"href\":"@ + quoted(
            href@,
        ) + "}}}"@,
{
    assert(q._links == r._links);
    assert(q._embedded is None);
    lemma_minimal_resource_json(q, href);
}

/// Serialization has no hidden state: the rendering is a function of the
/// value alone, so any two renderings of the same resource are identical,
/// character for character.
pub proof fn lemma_rendering_deterministic(r: HalResource<String>, s1: Seq<char>, s2: Seq<char>)
    requires
        s1 == rendered_json(r),
        s2 == rendered_json(r),
    ensures
        s1 == s2,
{
}

} // verus!
