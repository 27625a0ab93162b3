//! The HAL wire format for a whole resource.
//!
//! A rendered resource is a `HalResource<String>`: an envelope whose payload
//! slot already holds the payload's serialized members (the text between the
//! braces of its JSON object, possibly empty). [`rendered_json`] gives the
//! complete output for such a value, character for character: the `_links`
//! member if present, the `_embedded` member if present — each embedded
//! entry rendered recursively in full — and the payload members flattened
//! in as siblings, the three parts joined by commas only where both sides
//! are non-empty, all inside one pair of braces. [`serialize_rendered`]
//! produces exactly that text.
//!
//! [`crate::payload`] turns a `HalResource<T>` of an arbitrary serializable
//! payload into this form.

use vstd::prelude::*;
use vstd::string::StringExecFns;

use crate::model::HalLinks;
use crate::model::HalResource;
use crate::ser::links_json;
use crate::ser::push_links;
use crate::text::push_quoted;
use crate::text::quoted;

verus! {

/// The `_links` member of a resource object: nothing at all when the block
/// is absent.
pub open spec fn links_part(o: Option<HalLinks>) -> Seq<char> {
    match o {
        None => Seq::<char>::empty(),
        Some(ls) => "\"_links\":"@ + links_json(ls),
    }
}

/// Two member lists side by side: a comma stands between them only when
/// both are non-empty, so an absent part leaves no separator behind.
pub open spec fn comma_join(a: Seq<char>, b: Seq<char>) -> Seq<char> {
    if a.len() == 0 {
        b
    } else if b.len() == 0 {
        a
    } else {
        a + ","@ + b
    }
}

/// The complete JSON object rendering one resource: its three parts — the
/// `_links` member, the `_embedded` member and the payload's own members —
/// comma-joined inside one pair of braces. A part that is absent (or, for
/// the payload, empty) is omitted entirely.
pub open spec fn rendered_json(r: HalResource<String>) -> Seq<char>
    decreases r,
{
    "{"@ + comma_join(comma_join(links_part(r._links), embedded_part(r._embedded)), r.data@)
        + "}"@
}

/// The `_embedded` member of a resource object: nothing at all when absent,
/// otherwise the entries, in order, inside one nested object.
pub open spec fn embedded_part(o: Option<Vec<(String, HalResource<String>)>>) -> Seq<char>
    decreases o,
{
    match o {
        None => Seq::<char>::empty(),
        Some(v) => "\"_embedded\":{"@ + embedded_entries(v@) + "}"@,
    }
}

/// The entries of the `_embedded` object, comma-separated, each a quoted
/// relation name, a colon, and the full recursive rendering of the
/// sub-resource.
pub open spec fn embedded_entries(s: Seq<(String, HalResource<String>)>) -> Seq<char>
    decreases s,
{
    if s.len() == 0 {
        Seq::<char>::empty()
    } else if s.len() == 1 {
        entry_text(s[0])
    } else {
        entry_text(s[0]) + ","@ + embedded_entries(s.subrange(1, s.len() as int))
    }
}

/// One `_embedded` entry: the quoted relation name, a colon, and the full
/// rendering of the sub-resource.
pub open spec fn entry_text(e: (String, HalResource<String>)) -> Seq<char>
    decreases e,
{
    quoted(e.0@) + ":"@ + rendered_json(e.1)
}

/// Appending an entry at the end of a list separates it from a non-empty
/// list with one comma.
proof fn lemma_entries_snoc(s: Seq<(String, HalResource<String>)>, e: (String, HalResource<String>))
    ensures
        embedded_entries(s.push(e)) == if s.len() == 0 {
            entry_text(e)
        } else {
            embedded_entries(s) + ","@ + entry_text(e)
        },
    decreases s.len(),
{
    let t = s.push(e);
    if s.len() == 0 {
        assert(t[0] == e);
    } else {
        assert(t[0] == s[0]);
        assert(t.subrange(1, t.len() as int) =~= s.subrange(1, s.len() as int).push(e));
        lemma_entries_snoc(s.subrange(1, s.len() as int), e);
        assert(embedded_entries(t) =~= embedded_entries(s) + ","@ + entry_text(e));
    }
}

/// Regrouping of the pieces an entry is written from, on plain sequences.
proof fn lemma_entry_reassoc(pre: Seq<char>, e: Seq<char>, q: Seq<char>, sub: Seq<char>)
    ensures
        pre + e + ","@ + q + ":"@ + sub == pre + (e + ","@ + (q + ":"@ + sub)),
        pre + e + q + ":"@ + sub == pre + (e + (q + ":"@ + sub)),
        e.len() == 0 ==> pre + e + q + ":"@ + sub == pre + (q + ":"@ + sub),
{
    assert(pre + e + ","@ + q + ":"@ + sub =~= pre + (e + ","@ + (q + ":"@ + sub)));
    assert(pre + e + q + ":"@ + sub =~= pre + (e + (q + ":"@ + sub)));
    if e.len() == 0 {
        assert(pre + e + q + ":"@ + sub =~= pre + (q + ":"@ + sub));
    }
}

/// What one pass of the entry loop appends: the text written so far grows
/// by exactly the next entry, with a separating comma after a predecessor.
proof fn lemma_push_entry(
    pre: Seq<char>,
    s: Seq<(String, HalResource<String>)>,
    i: int,
    sub: Seq<char>,
)
    requires
        0 <= i < s.len(),
        sub == rendered_json(s[i].1),
    ensures
        (if i > 0 {
            pre + embedded_entries(s.subrange(0, i)) + ","@
        } else {
            pre + embedded_entries(s.subrange(0, i))
        }) + quoted(s[i].0@) + ":"@ + sub == pre + embedded_entries(s.subrange(0, i + 1)),
{
    let done = s.subrange(0, i);
    let ext = s.subrange(0, i + 1);
    assert(ext =~= done.push(s[i]));
    lemma_entries_snoc(done, s[i]);
    assert(entry_text(s[i]) == quoted(s[i].0@) + ":"@ + sub);
    lemma_entry_reassoc(pre, embedded_entries(done), quoted(s[i].0@), sub);
    if i > 0 {
        assert(embedded_entries(ext) == embedded_entries(done) + ","@ + entry_text(s[i]));
    } else {
        assert(done.len() == 0);
        assert(embedded_entries(ext) == entry_text(s[i]));
    }
}

/// Appends the complete `_embedded` member rendering the entries of `v`.
fn push_embedded(out: &mut String, v: &Vec<(String, HalResource<String>)>)
    ensures
        final(out)@ == old(out)@ + "\"_embedded\":{"@ + embedded_entries(v@) + "}"@,
    decreases *v,
{
    out.append("\"_embedded\":{");
    let ghost pre = out@;
    let n = v.len();
    let mut i: usize = 0;
    while i < n
        invariant
            n == v@.len(),
            i <= n,
            out@ == pre + embedded_entries(v@.subrange(0, i as int)),
        decreases n - i,
    {
        proof {
            assert(decreases_to!(*v => v@[i as int]));
            assert(decreases_to!(v@[i as int] => v@[i as int].1));
        }
        if i > 0 {
            out.append(",");
        }
        let entry = &v[i];
        push_quoted(out, entry.0.as_str());
        out.append(":");
        let sub = serialize_rendered(&entry.1);
        out.append(sub.as_str());
        proof {
            lemma_push_entry(pre, v@, i as int, sub@);
        }
        i = i + 1;
    }
    proof {
        assert(v@.subrange(0, n as int) =~= v@);
    }
    out.append("}");
}

/// Placing a non-empty member list after an already rendered one takes one
/// comma exactly when the rendered one is non-empty.
proof fn lemma_join_nonempty(
    prefix: Seq<char>,
    head: Seq<char>,
    a: Seq<char>,
    b: Seq<char>,
    c: Seq<char>,
)
    requires
        a.len() + b.len() + c.len() > 0,
    ensures
        (if head.len() > 0 {
            prefix + head + ","@ + a + b + c
        } else {
            prefix + head + a + b + c
        }) == prefix + comma_join(head, a + b + c),
{
    if head.len() > 0 {
        assert(prefix + head + ","@ + a + b + c =~= prefix + comma_join(head, a + b + c));
    } else {
        assert(prefix + head + a + b + c =~= prefix + comma_join(head, a + b + c));
    }
}

/// Serializes a rendered resource to its JSON object.
///
/// The output is exactly [`rendered_json`]: an absent `_links` or
/// `_embedded` block and an empty payload each leave no key, no `null` and
/// no stray comma behind, and every embedded sub-resource appears in full
/// under its relation name.
#[verifier::rlimit(60)]
pub fn serialize_rendered(r: &HalResource<String>) -> (out: String)
    ensures
        out@ == rendered_json(*r),
    decreases *r,
{
    let ghost lp = links_part(r._links);
    let ghost ep = embedded_part(r._embedded);
    let mut out = String::new();
    out.append("{");
    let mut first: bool = true;
    match &r._links {
        None => {},
        Some(ls) => {
            out.append("\"_links\":");
            push_links(&mut out, ls);
            first = false;
            assert(lp.len() > 0) by {
                reveal_strlit("\"_links\":");
            }
            assert(out@ =~= "{"@ + lp);
        },
    }
    assert(out@ == "{"@ + lp && first == (lp.len() == 0)) by {
        if r._links is None {
            assert(out@ =~= "{"@ + lp);
        }
    }
    match &r._embedded {
        None => {
            assert(out@ =~= "{"@ + comma_join(lp, ep));
        },
        Some(v) => {
            proof {
                assert(decreases_to!(Some(*v) => *v));
                assert(ep.len() > 0) by {
                    reveal_strlit("\"_embedded\":{");
                }
            }
            if !first {
                out.append(",");
            }
            push_embedded(&mut out, v);
            proof {
                lemma_join_nonempty(
                    "{"@,
                    lp,
                    "\"_embedded\":{"@,
                    embedded_entries(v@),
                    "}"@,
                );
            }
            first = false;
        },
    }
    let ghost head = comma_join(lp, ep);
    assert(out@ == "{"@ + head);
    assert(first == (head.len() == 0));
    if !r.data.as_str().is_empty() {
        if !first {
            out.append(",");
        }
        out.append(r.data.as_str());
        assert(out@ =~= "{"@ + comma_join(head, r.data@));
    } else {
        assert(out@ =~= "{"@ + comma_join(head, r.data@));
    }
    out.append("}");
    assert(out@ =~= rendered_json(*r));
    out
}

} // verus!
