//! The DOM tree that a transform consumes, as plain values.
//!
//! The HTML parser's own node types never cross into the transform: a parsed
//! document arrives as a tree of [`DomNode`] values holding only strings,
//! vectors and options. An attribute collection denotes a mapping from name
//! to optional value: a later occurrence of a name wins, and a valueless
//! attribute maps to `None`.

use vstd::prelude::*;

verus! {

/// One attribute of an element: a name, and a value where the attribute has
/// one (`<div hidden>` has none).
#[derive(Debug, PartialEq, Eq)]
pub struct Attr {
    pub name: String,
    pub value: Option<String>,
}

/// A parsed HTML node: a comment, a text run, a text run whose bytes do not
/// decode as text, or an element with attributes and children.
#[derive(Debug, PartialEq, Eq)]
pub enum DomNode {
    Comment,
    Text(String),
    UndecodableText,
    Element(DomElement),
}

/// An element node: tag name, attributes, children in document order.
#[derive(Debug, PartialEq, Eq)]
pub struct DomElement {
    pub name: String,
    pub attrs: Vec<Attr>,
    pub children: Vec<DomNode>,
}

/// The mathematical shape of a [`DomNode`]: attribute order is forgotten
/// (attributes are a mapping), children stay a sequence.
pub enum DomNodeV {
    Comment,
    Text(Seq<char>),
    UndecodableText,
    Element(DomElementV),
}

/// The mathematical shape of a [`DomElement`].
pub struct DomElementV {
    pub name: Seq<char>,
    pub attrs: Map<Seq<char>, Option<Seq<char>>>,
    pub children: Seq<DomNodeV>,
}

/// The mapping that a sequence of attributes denotes; a later occurrence of a
/// name wins.
pub open spec fn attrs_map_of(s: Seq<Attr>) -> Map<Seq<char>, Option<Seq<char>>>
    decreases s.len(),
{
    if s.len() == 0 {
        Map::empty()
    } else {
        attrs_map_of(s.subrange(0, s.len() - 1)).insert(
            s[s.len() - 1].name@,
            s[s.len() - 1].value.deep_view(),
        )
    }
}

/// The value of a [`DomNode`].
pub open spec fn view_dnode(n: DomNode) -> DomNodeV
    decreases n,
{
    match n {
        DomNode::Comment => DomNodeV::Comment,
        DomNode::Text(t) => DomNodeV::Text(t@),
        DomNode::UndecodableText => DomNodeV::UndecodableText,
        DomNode::Element(e) => DomNodeV::Element(
            DomElementV {
                name: e.name@,
                attrs: attrs_map_of(e.attrs@),
                children: view_dnodes(e.children@),
            },
        ),
    }
}

/// The values of a sequence of [`DomNode`]s, in order.
pub open spec fn view_dnodes(s: Seq<DomNode>) -> Seq<DomNodeV>
    decreases s,
{
    if s.len() == 0 {
        Seq::empty()
    } else {
        view_dnodes(s.subrange(0, s.len() - 1)).push(view_dnode(s[s.len() - 1]))
    }
}

/// `view_dnodes` is pointwise `view_dnode`.
pub proof fn lemma_view_dnodes_index(s: Seq<DomNode>)
    ensures
        view_dnodes(s).len() == s.len(),
        forall|i: int| 0 <= i < s.len() ==> view_dnodes(s)[i] == view_dnode(#[trigger] s[i]),
    decreases s.len(),
{
    if s.len() > 0 {
        lemma_view_dnodes_index(s.subrange(0, s.len() - 1));
        assert forall|i: int| 0 <= i < s.len() implies view_dnodes(s)[i] == view_dnode(
            #[trigger] s[i],
        ) by {
            if i < s.len() - 1 {
                assert(s.subrange(0, s.len() - 1)[i] == s[i]);
            }
        }
    }
}

/// What `attrs_map_of` holds of each key: the value of the last attribute of
/// that name, if any attribute has the name.
pub proof fn lemma_attrs_map_lookup(s: Seq<Attr>, k: Seq<char>)
    ensures
        attrs_map_of(s).dom().contains(k) <==> exists|i: int|
            0 <= i < s.len() && #[trigger] s[i].name@ == k,
        attrs_map_of(s).dom().contains(k) ==> exists|i: int|
            {
                &&& 0 <= i < s.len()
                &&& #[trigger] s[i].name@ == k
                &&& attrs_map_of(s)[k] == s[i].value.deep_view()
                &&& forall|j: int| i < j < s.len() ==> #[trigger] s[j].name@ != k
            },
    decreases s.len(),
{
    if s.len() > 0 {
        let pre = s.subrange(0, s.len() - 1);
        lemma_attrs_map_lookup(pre, k);
        if s[s.len() - 1].name@ == k {
            assert(attrs_map_of(s)[k] == s[s.len() - 1].value.deep_view());
        } else {
            if attrs_map_of(pre).dom().contains(k) {
                let i = choose|i: int|
                    {
                        &&& 0 <= i < pre.len()
                        &&& #[trigger] pre[i].name@ == k
                        &&& attrs_map_of(pre)[k] == pre[i].value.deep_view()
                        &&& forall|j: int| i < j < pre.len() ==> #[trigger] pre[j].name@ != k
                    };
                assert(s[i].name@ == k);
                assert forall|j: int| i < j < s.len() implies #[trigger] s[j].name@ != k by {
                    if j < s.len() - 1 {
                        assert(pre[j] == s[j]);
                    }
                }
                assert(attrs_map_of(s)[k] == s[i].value.deep_view());
            } else {
                assert(forall|i: int| 0 <= i < pre.len() ==> #[trigger] pre[i].name@ != k);
                assert forall|i: int| 0 <= i < s.len() && #[trigger] s[i].name@ == k implies false by {
                    if i < s.len() - 1 {
                        assert(pre[i].name@ == k);
                    }
                }
            }
        }
    }
}

/// Looks a name up in an attribute list: `None` when no attribute has the
/// name, otherwise the (possibly absent) value of the last one that does.
pub fn attr_lookup(attrs: &Vec<Attr>, key: &str) -> (r: Option<Option<String>>)
    ensures
        r.deep_view() == (if attrs_map_of(attrs@).dom().contains(key@) {
            Some(attrs_map_of(attrs@)[key@])
        } else {
            None::<Option<Seq<char>>>
        }),
{
    proof {
        lemma_attrs_map_lookup(attrs@, key@);
    }
    let mut j: usize = attrs.len();
    while j > 0
        invariant
            j <= attrs@.len(),
            forall|i: int| j <= i < attrs@.len() ==> #[trigger] attrs@[i].name@ != key@,
        decreases j,
    {
        j = j - 1;
        if crate::text::str_eq(attrs[j].name.as_str(), key) {
            let v = match &attrs[j].value {
                Some(s) => Some(s.clone()),
                None => None,
            };
            proof {
                let s = attrs@;
                lemma_attrs_map_lookup(s, key@);
                assert(s[j as int].name@ == key@);
                assert(attrs_map_of(s).dom().contains(key@));
                let i = choose|i: int|
                    {
                        &&& 0 <= i < s.len()
                        &&& #[trigger] s[i].name@ == key@
                        &&& attrs_map_of(s)[key@] == s[i].value.deep_view()
                        &&& forall|j: int| i < j < s.len() ==> #[trigger] s[j].name@ != key@
                    };
                assert(i == j);
                assert(v.deep_view() == s[j as int].value.deep_view());
            }
            return Some(v);
        }
    }
    None
}

} // verus!
