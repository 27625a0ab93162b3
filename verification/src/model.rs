//! The three HAL record types and their constructors.
//!
//! All three are plain value records, immutable after construction: callers
//! assemble them (directly or through the consuming setter methods) and hand
//! them to the serializers in [`crate::ser`] and [`crate::payload`].

use vstd::prelude::*;

verus! {

/// One hypermedia link: the target `href` (always present) plus optional
/// metadata. Every optional field left absent is omitted entirely from the
/// serialized output, never rendered as `null`.
#[derive(Debug)]
pub struct Link {
    /// The target URI, or a URI template when `templated` is set.
    pub href: String,
    /// Whether `href` is a URI template.
    pub templated: Option<bool>,
    /// A media type hint; serialized under the key `"type"`.
    pub _type: Option<String>,
    /// A URL describing the deprecation of the link.
    pub deprecation: Option<String>,
    /// A secondary key distinguishing links of the same relation.
    pub name: Option<String>,
    /// A URI identifying an additional profile of the link semantics.
    pub profile: Option<String>,
    /// A human-readable label.
    pub title: Option<String>,
    /// The language tag of the target.
    pub hreflang: Option<String>,
}

impl Link {
    /// A link to `href` with every optional field absent.
    ///
    /// The mandatory `href` is a parameter, so a `Link` cannot be built
    /// without one; no field validation is performed beyond that.
    pub fn new(href: String) -> (l: Link)
        ensures
            l == (Link {
                href,
                templated: None,
                _type: None,
                deprecation: None,
                name: None,
                profile: None,
                title: None,
                hreflang: None,
            }),
    {
        Link {
            href,
            templated: None,
            _type: None,
            deprecation: None,
            name: None,
            profile: None,
            title: None,
            hreflang: None,
        }
    }

    /// The same link with `templated` set.
    pub fn templated(self, v: bool) -> (l: Link)
        ensures
            l == (Link { templated: Some(v), ..self }),
    {
        Link { templated: Some(v), ..self }
    }

    /// The same link with the media type hint set.
    pub fn media_type(self, v: String) -> (l: Link)
        ensures
            l == (Link { _type: Some(v), ..self }),
    {
        Link { _type: Some(v), ..self }
    }

    /// The same link with `deprecation` set.
    pub fn deprecation(self, v: String) -> (l: Link)
        ensures
            l == (Link { deprecation: Some(v), ..self }),
    {
        Link { deprecation: Some(v), ..self }
    }

    /// The same link with `name` set.
    pub fn name(self, v: String) -> (l: Link)
        ensures
            l == (Link { name: Some(v), ..self }),
    {
        Link { name: Some(v), ..self }
    }

    /// The same link with `profile` set.
    pub fn profile(self, v: String) -> (l: Link)
        ensures
            l == (Link { profile: Some(v), ..self }),
    {
        Link { profile: Some(v), ..self }
    }

    /// The same link with `title` set.
    pub fn title(self, v: String) -> (l: Link)
        ensures
            l == (Link { title: Some(v), ..self }),
    {
        Link { title: Some(v), ..self }
    }

    /// The same link with `hreflang` set.
    pub fn hreflang(self, v: String) -> (l: Link)
        ensures
            l == (Link { hreflang: Some(v), ..self }),
    {
        Link { hreflang: Some(v), ..self }
    }
}

/// Duplicates an optional string, the copy equal to its source.
fn clone_opt_string(v: &Option<String>) -> (r: Option<String>)
    ensures
        r == *v,
{
    match v {
        None => None,
        Some(s) => Some(s.clone()),
    }
}

impl Clone for Link {
    /// An independent copy with exactly the same fields.
    fn clone(&self) -> (l: Link)
        ensures
            l == *self,
    {
        Link {
            href: self.href.clone(),
            templated: self.templated,
            _type: clone_opt_string(&self._type),
            deprecation: clone_opt_string(&self.deprecation),
            name: clone_opt_string(&self.name),
            profile: clone_opt_string(&self.profile),
            title: clone_opt_string(&self.title),
            hreflang: clone_opt_string(&self.hreflang),
        }
    }
}

/// The fixed set of named link slots of a resource: the mandatory `self`
/// relation plus four optional relations. The mandatory slot serializes
/// under the literal key `"self"`; each absent optional slot is omitted.
#[derive(Debug)]
pub struct HalLinks {
    /// The resource's own canonical link; serialized under the key `"self"`.
    pub _self: Link,
    /// The optional `related` relation.
    pub related: Option<Link>,
    /// The optional `next` relation.
    pub next: Option<Link>,
    /// The optional `search` relation.
    pub search: Option<Link>,
    /// The optional `previous` relation.
    pub previous: Option<Link>,
}

impl HalLinks {
    /// A links block holding only the mandatory `self` relation.
    ///
    /// The mandatory slot is a parameter, so a `HalLinks` cannot be built
    /// without it.
    pub fn new(_self: Link) -> (ls: HalLinks)
        ensures
            ls == (HalLinks { _self, related: None, next: None, search: None, previous: None }),
    {
        HalLinks { _self, related: None, next: None, search: None, previous: None }
    }

    /// The same block with the `related` relation set.
    pub fn related(self, v: Link) -> (ls: HalLinks)
        ensures
            ls == (HalLinks { related: Some(v), ..self }),
    {
        HalLinks { related: Some(v), ..self }
    }

    /// The same block with the `next` relation set.
    pub fn next(self, v: Link) -> (ls: HalLinks)
        ensures
            ls == (HalLinks { next: Some(v), ..self }),
    {
        HalLinks { next: Some(v), ..self }
    }

    /// The same block with the `search` relation set.
    pub fn search(self, v: Link) -> (ls: HalLinks)
        ensures
            ls == (HalLinks { search: Some(v), ..self }),
    {
        HalLinks { search: Some(v), ..self }
    }

    /// The same block with the `previous` relation set.
    pub fn previous(self, v: Link) -> (ls: HalLinks)
        ensures
            ls == (HalLinks { previous: Some(v), ..self }),
    {
        HalLinks { previous: Some(v), ..self }
    }
}

/// Duplicates an optional link, the copy equal to its source.
fn clone_opt_link(v: &Option<Link>) -> (r: Option<Link>)
    ensures
        r == *v,
{
    match v {
        None => None,
        Some(l) => Some(l.clone()),
    }
}

impl Clone for HalLinks {
    /// An independent copy with exactly the same relations.
    fn clone(&self) -> (ls: HalLinks)
        ensures
            ls == *self,
    {
        HalLinks {
            _self: self._self.clone(),
            related: clone_opt_link(&self.related),
            next: clone_opt_link(&self.next),
            search: clone_opt_link(&self.search),
            previous: clone_opt_link(&self.previous),
        }
    }
}

/// The generic HAL envelope: an optional links block, an optional map of
/// embedded named sub-resources, and a payload whose own fields are
/// flattened into the same serialized object.
///
/// The embedded map is a vector of `(relation name, resource)` pairs; a
/// well-formed value keeps its keys unique (see
/// [`HalResource::embedded_keys_unique`]), which [`HalResource::embed`]
/// maintains by replacing the entry of a relation that is already present.
#[derive(Debug)]
pub struct HalResource<T> {
    /// The links block; omitted from output when absent.
    pub _links: Option<HalLinks>,
    /// Named sub-resources, rendered under the key `"_embedded"`; omitted
    /// from output when absent.
    pub _embedded: Option<Vec<(String, HalResource<T>)>>,
    /// The payload, whose fields become sibling keys of `_links` and
    /// `_embedded` in the serialized object.
    pub data: T,
}

impl<T> HalResource<T> {
    /// Whether the embedded map, if present, holds each relation name at
    /// most once.
    pub open spec fn embedded_keys_unique(self) -> bool {
        match self._embedded {
            None => true,
            Some(v) => forall|i: int, j: int|
                0 <= i < j < v@.len() ==> v@[i].0@ != v@[j].0@,
        }
    }

    /// A resource holding only the payload: no links, nothing embedded.
    pub fn new(data: T) -> (r: HalResource<T>)
        ensures
            r._links is None,
            r._embedded is None,
            r.data == data,
    {
        HalResource { _links: None, _embedded: None, data }
    }

    /// The same resource with its links block set.
    pub fn links(self, v: HalLinks) -> (r: HalResource<T>)
        ensures
            r._links == Some(v),
            r._embedded == self._embedded,
            r.data == self.data,
    {
        HalResource { _links: Some(v), ..self }
    }

    /// The same resource with `sub` embedded under the relation `rel`: a
    /// new entry at the end when the relation was absent, otherwise the
    /// entry of that relation replaced, so relation names stay unique.
    pub fn embed(self, rel: String, sub: HalResource<T>) -> (out: HalResource<T>)
        requires
            self.embedded_keys_unique(),
        ensures
            out._links == self._links,
            out.data == self.data,
            out.embedded_keys_unique(),
            match self._embedded {
                None => out._embedded matches Some(v2) && v2@ == seq![(rel, sub)],
                Some(v) => out._embedded matches Some(v2) && (if (exists|i: int|
                    0 <= i < v@.len() && (#[trigger] v@[i]).0@ == rel@) {
                    v2@ == v@.update(
                        choose|i: int| 0 <= i < v@.len() && (#[trigger] v@[i]).0@ == rel@,
                        (rel, sub),
                    )
                } else {
                    v2@ == v@.push((rel, sub))
                }),
            },
    {
        let HalResource { _links, _embedded, data } = self;
        match _embedded {
            None => {
                let mut v: Vec<(String, HalResource<T>)> = Vec::new();
                v.push((rel, sub));
                assert(v@ =~= seq![(rel, sub)]);
                HalResource { _links, _embedded: Some(v), data }
            },
            Some(mut v) => {
                let n = v.len();
                let mut i: usize = 0;
                let mut idx: usize = n;
                while i < n
                    invariant
                        n == v@.len(),
                        i <= n,
                        idx == n || (idx < i && v@[idx as int].0@ == rel@),
                        idx == n ==> forall|j: int| 0 <= j < i ==> (#[trigger] v@[j]).0@ != rel@,
                    decreases n - i,
                {
                    if idx == n && v[i].0 == rel {
                        idx = i;
                    }
                    i = i + 1;
                }
                if idx < n {
                    proof {
                        let w = choose|k: int| 0 <= k < v@.len() && (#[trigger] v@[k]).0@ == rel@;
                        assert(v@[idx as int].0@ == rel@);
                        assert(w == idx) by {
                            if w != idx {
                                assert(v@[w].0@ != v@[idx as int].0@);
                            }
                        }
                    }
                    v[idx] = (rel, sub);
                    proof {
                        let v2 = v@;
                        assert(forall|a: int, b: int|
                            0 <= a < b < v2.len() ==> (#[trigger] v2[a]).0@ != (#[trigger] v2[b]).0@);
                    }
                    HalResource { _links, _embedded: Some(v), data }
                } else {
                    proof {
                        assert(forall|j: int| 0 <= j < v@.len() ==> (#[trigger] v@[j]).0@ != rel@);
                    }
                    v.push((rel, sub));
                    proof {
                        let v2 = v@;
                        assert(forall|a: int, b: int|
                            0 <= a < b < v2.len() ==> (#[trigger] v2[a]).0@ != (#[trigger] v2[b]).0@);
                    }
                    HalResource { _links, _embedded: Some(v), data }
                }
            },
        }
    }
}

/// Builds the minimal resource for the common case: a self link to `link`
/// and the payload, with every other link field and relation absent and
/// nothing embedded. Construction cannot fail: both mandatory fields are
/// supplied here.
pub fn get_default_response<T: Clone + Default>(link: String, data: T) -> (r: HalResource<T>)
    ensures
        r._links == Some(
            HalLinks {
                _self: Link {
                    href: link,
                    templated: None,
                    _type: None,
                    deprecation: None,
                    name: None,
                    profile: None,
                    title: None,
                    hreflang: None,
                },
                related: None,
                next: None,
                search: None,
                previous: None,
            },
        ),
        r._embedded is None,
        r.data == data,
{
    let _self = Link::new(link);
    let links = HalLinks::new(_self);
    HalResource { _links: Some(links), _embedded: None, data }
}

} // verus!
