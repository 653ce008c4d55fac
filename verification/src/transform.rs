//! The DOM-to-view transform: recursive descent, per-node classification,
//! component interception, prop extraction, built-in element mapping.

use vstd::prelude::*;

verus! {

use crate::dom::Attr;
use crate::dom::DomNode;
use crate::dom::DomNodeV;
use crate::dom::attr_lookup;
use crate::dom::attrs_map_of;
use crate::dom::lemma_attrs_map_lookup;
use crate::dom::lemma_view_dnodes_index;
use crate::dom::view_dnode;
use crate::dom::view_dnodes;
use crate::registry::Components;
use crate::tags::spec_builtin_tag;
use crate::tags::builtin_tag;
use crate::text::format_text;
use crate::text::join_sp;
use crate::text::spec_format;
use crate::text::spec_join_sp;
use crate::text::spec_split_ws;
use crate::text::split_ws;
use crate::text::str_eq;
use crate::view::ComponentCall;
use crate::view::ComponentCallV;
use crate::view::Inline;
use crate::view::InlineV;
use crate::view::MdxComponentProps;
use crate::view::MdxComponentPropsV;
use crate::view::ValuedAttr;
use crate::view::ViewElement;
use crate::view::ViewElementV;
use crate::view::ViewNode;
use crate::view::ViewNodeV;
use crate::view::lemma_view_vnodes_index;
use crate::view::valued_map_of;
use crate::view::view_inlines;
use crate::view::view_vnode;
use crate::view::view_vnodes;

/// The element's id: the value of its `id` attribute, when the attribute is
/// present with a value.
pub open spec fn spec_id(attrs: Map<Seq<char>, Option<Seq<char>>>) -> Option<Seq<char>> {
    if attrs.dom().contains("id"@) {
        attrs["id"@]
    } else {
        None
    }
}

/// The element's class tokens: the whitespace-split value of its `class`
/// attribute, in order and not deduplicated; empty when the attribute is
/// absent or valueless.
pub open spec fn spec_classes(attrs: Map<Seq<char>, Option<Seq<char>>>) -> Seq<Seq<char>> {
    if attrs.dom().contains("class"@) {
        match attrs["class"@] {
            Some(v) => spec_split_ws(v),
            None => Seq::empty(),
        }
    } else {
        Seq::empty()
    }
}

/// The class attribute a built-in element carries: the tokens re-joined with
/// single spaces, absent when there are no tokens.
pub open spec fn spec_class_attr(attrs: Map<Seq<char>, Option<Seq<char>>>) -> Option<Seq<char>> {
    if spec_classes(attrs).len() > 0 {
        Some(spec_join_sp(spec_classes(attrs)))
    } else {
        None
    }
}

/// The attributes that carry a value; only these are applied to a built-in
/// element.
pub open spec fn spec_valued(attrs: Map<Seq<char>, Option<Seq<char>>>) -> Map<Seq<char>, Seq<char>> {
    Map::new(
        |k: Seq<char>| attrs.dom().contains(k) && attrs[k] is Some,
        |k: Seq<char>|
            match attrs[k] {
                Some(v) => v,
                None => Seq::empty(),
            },
    )
}

/// The newline-formatting flag handed to the children of an element: off
/// inside the preformatted context `code`/`pre`, otherwise inherited.
pub open spec fn spec_newline_flag(name: Seq<char>, fmt: bool) -> bool {
    if name == "code"@ || name == "pre"@ {
        false
    } else {
        fmt
    }
}

/// The props a registered component receives from an intercepted element.
pub open spec fn spec_props(
    attrs: Map<Seq<char>, Option<Seq<char>>>,
    children: Seq<ViewNodeV>,
) -> MdxComponentPropsV {
    MdxComponentPropsV {
        id: spec_id(attrs),
        classes: spec_classes(attrs),
        attributes: attrs,
        children,
    }
}

/// What one DOM node becomes. A comment or an undecodable text run becomes
/// the empty node. A text run becomes formatted text, literal when `fmt` is
/// off. An element has its children transformed first, in document order,
/// with the flag of [`spec_newline_flag`]; then a registered name becomes a
/// component invocation with extracted props, an unregistered standard tag
/// becomes a built-in element with extracted attributes, and an unknown tag
/// becomes the empty node.
pub open spec fn spec_transform(n: DomNodeV, reg: Set<Seq<char>>, fmt: bool) -> ViewNodeV
    decreases n,
{
    match n {
        DomNodeV::Comment => ViewNodeV::Empty,
        DomNodeV::UndecodableText => ViewNodeV::Empty,
        DomNodeV::Text(t) => ViewNodeV::Text(
            if fmt {
                spec_format(t)
            } else {
                seq![InlineV::Run(t)]
            },
        ),
        DomNodeV::Element(e) => {
            let kids = spec_transform_nodes(e.children, reg, spec_newline_flag(e.name, fmt));
            if reg.contains(e.name) {
                ViewNodeV::Component(
                    ComponentCallV { name: e.name, props: spec_props(e.attrs, kids) },
                )
            } else {
                match spec_builtin_tag(e.name) {
                    Some(tag) => ViewNodeV::Element(
                        ViewElementV {
                            tag,
                            id: spec_id(e.attrs),
                            class: spec_class_attr(e.attrs),
                            attrs: spec_valued(e.attrs),
                            children: kids,
                        },
                    ),
                    None => ViewNodeV::Empty,
                }
            }
        },
    }
}

/// [`spec_transform`] over a sequence of nodes, in order.
pub open spec fn spec_transform_nodes(s: Seq<DomNodeV>, reg: Set<Seq<char>>, fmt: bool) -> Seq<
    ViewNodeV,
>
    decreases s,
{
    if s.len() == 0 {
        Seq::empty()
    } else {
        spec_transform_nodes(s.subrange(0, s.len() - 1), reg, fmt).push(
            spec_transform(s[s.len() - 1], reg, fmt),
        )
    }
}

/// The transform keeps document order: the result of a sequence of nodes is
/// exactly the sequence of each node's own result, index by index.
pub proof fn lemma_transform_preserves_order(s: Seq<DomNodeV>, reg: Set<Seq<char>>, fmt: bool)
    ensures
        spec_transform_nodes(s, reg, fmt).len() == s.len(),
        forall|i: int|
            0 <= i < s.len() ==> spec_transform_nodes(s, reg, fmt)[i] == spec_transform(
                #[trigger] s[i],
                reg,
                fmt,
            ),
    decreases s.len(),
{
    if s.len() > 0 {
        lemma_transform_preserves_order(s.subrange(0, s.len() - 1), reg, fmt);
        assert forall|i: int| 0 <= i < s.len() implies spec_transform_nodes(s, reg, fmt)[i]
            == spec_transform(#[trigger] s[i], reg, fmt) by {
            if i < s.len() - 1 {
                assert(s.subrange(0, s.len() - 1)[i] == s[i]);
            }
        }
    }
}

/// With formatting active, a text node holding no newline flanked by text
/// on both sides passes through the newline rule unchanged: one literal run,
/// no break markers.
pub proof fn lemma_text_without_soft_wraps_unchanged(t: Seq<char>, reg: Set<Seq<char>>)
    requires
        forall|i: int| !crate::text::is_break_at(t, i),
    ensures
        spec_transform(DomNodeV::Text(t), reg, true) == ViewNodeV::Text(seq![InlineV::Run(t)]),
{
    crate::text::lemma_format_no_breaks(t);
}

/// Extracts the element's id.
fn extract_id(attrs: &Vec<Attr>) -> (r: Option<String>)
    ensures
        r.deep_view() == spec_id(attrs_map_of(attrs@)),
{
    match attr_lookup(attrs, "id") {
        Some(v) => v,
        None => None,
    }
}

/// Extracts the element's class tokens.
fn extract_classes(attrs: &Vec<Attr>) -> (r: Vec<String>)
    ensures
        r.deep_view() == spec_classes(attrs_map_of(attrs@)),
{
    match attr_lookup(attrs, "class") {
        Some(Some(v)) => split_ws(v.as_str()),
        _ => {
            let r: Vec<String> = Vec::new();
            proof {
                assert(r.deep_view() =~= Seq::<Seq<char>>::empty());
            }
            r
        },
    }
}

/// Copies an attribute list.
fn clone_attrs(attrs: &Vec<Attr>) -> (r: Vec<Attr>)
    ensures
        r@ == attrs@,
{
    let mut r: Vec<Attr> = Vec::new();
    let mut i: usize = 0;
    while i < attrs.len()
        invariant
            0 <= i <= attrs@.len(),
            r@ =~= attrs@.subrange(0, i as int),
        decreases attrs@.len() - i,
    {
        let a = &attrs[i];
        let value = match &a.value {
            Some(v) => Some(v.clone()),
            None => None,
        };
        r.push(Attr { name: a.name.clone(), value });
        proof {
            assert(r@ =~= attrs@.subrange(0, i + 1));
        }
        i = i + 1;
    }
    proof {
        assert(attrs@.subrange(0, attrs@.len() as int) =~= attrs@);
    }
    r
}

/// The names whose last occurrence in `s` lies before position `i`.
spec fn spec_settled(s: Seq<Attr>, i: int) -> Set<Seq<char>> {
    Set::new(
        |k: Seq<char>|
            exists|j: int|
                {
                    &&& 0 <= j < i
                    &&& #[trigger] s[j].name@ == k
                    &&& forall|l: int| j < l < s.len() ==> #[trigger] s[l].name@ != k
                },
    )
}

/// Keeps the attributes that carry a value, one entry per name, a later
/// occurrence of a name winning.
fn valued_attrs(attrs: &Vec<Attr>) -> (r: Vec<ValuedAttr>)
    ensures
        valued_map_of(r@) == spec_valued(attrs_map_of(attrs@)),
{
    let ghost s = attrs@;
    let ghost full = spec_valued(attrs_map_of(attrs@));
    let mut r: Vec<ValuedAttr> = Vec::new();
    let mut i: usize = 0;
    while i < attrs.len()
        invariant
            s == attrs@,
            full == spec_valued(attrs_map_of(attrs@)),
            0 <= i <= s.len(),
            valued_map_of(r@) =~= full.restrict(spec_settled(s, i as int)),
        decreases s.len() - i,
    {
        let a = &attrs[i];
        let ghost k = s[i as int].name@;
        let mut has_later = false;
        let mut j: usize = i + 1;
        while j < attrs.len()
            invariant
                s == attrs@,
                0 <= i < j <= s.len(),
                k == s[i as int].name@,
                has_later == exists|l: int| i < l < j && #[trigger] s[l].name@ == k,
            decreases s.len() - j,
        {
            if str_eq(attrs[j].name.as_str(), attrs[i].name.as_str()) {
                has_later = true;
            }
            j = j + 1;
        }
        proof {
            lemma_attrs_map_lookup(s, k);
            assert(s[i as int].name@ == k);
            assert(attrs_map_of(s).dom().contains(k));
        }
        if has_later {
            proof {
                assert forall|n: Seq<char>| spec_settled(s, i + 1).contains(n) implies spec_settled(
                    s,
                    i as int,
                ).contains(n) by {
                    let jj = choose|jj: int|
                        {
                            &&& 0 <= jj < i + 1
                            &&& #[trigger] s[jj].name@ == n
                            &&& forall|l: int| jj < l < s.len() ==> #[trigger] s[l].name@ != n
                        };
                    if jj == i {
                        let l = choose|l: int| i < l < s.len() && #[trigger] s[l].name@ == k;
                        assert(false);
                    }
                }
                assert(spec_settled(s, i + 1) =~= spec_settled(s, i as int));
                assert(valued_map_of(r@) =~= full.restrict(spec_settled(s, i + 1)));
            }
        } else {
            proof {
                assert forall|l: int| i < l < s.len() implies #[trigger] s[l].name@ != k by {}
                assert(spec_settled(s, i + 1).contains(k)) by {
                    assert(s[i as int].name@ == k);
                }
                assert forall|n: Seq<char>|
                    spec_settled(s, i + 1).contains(n) && n != k implies spec_settled(
                    s,
                    i as int,
                ).contains(n) by {}
                assert(spec_settled(s, i + 1) =~= spec_settled(s, i as int).insert(k));
                let m = attrs_map_of(s);
                let li = choose|li: int|
                    {
                        &&& 0 <= li < s.len()
                        &&& #[trigger] s[li].name@ == k
                        &&& m[k] == s[li].value.deep_view()
                        &&& forall|l: int| li < l < s.len() ==> #[trigger] s[l].name@ != k
                    };
                assert(li == i);
                assert(m[k] == s[i as int].value.deep_view());
            }
            match &a.value {
                Some(v) => {
                    let ghost r0 = r@;
                    r.push(ValuedAttr { name: a.name.clone(), value: v.clone() });
                    proof {
                        assert(r@.subrange(0, r@.len() - 1) =~= r0);
                        assert(valued_map_of(r@) =~= valued_map_of(r0).insert(k, v@));
                        assert(full.restrict(spec_settled(s, i + 1)) =~= full.restrict(
                            spec_settled(s, i as int),
                        ).insert(k, v@));
                        assert(valued_map_of(r@) =~= full.restrict(spec_settled(s, i + 1)));
                    }
                },
                None => {
                    proof {
                        assert(!full.dom().contains(k));
                        assert(full.restrict(spec_settled(s, i + 1)) =~= full.restrict(
                            spec_settled(s, i as int),
                        ));
                        assert(valued_map_of(r@) =~= full.restrict(spec_settled(s, i + 1)));
                    }
                },
            }
        }
        i = i + 1;
    }
    proof {
        assert forall|n: Seq<char>| full.dom().contains(n) implies spec_settled(
            s,
            s.len() as int,
        ).contains(n) by {
            lemma_attrs_map_lookup(s, n);
        }
        assert(full.restrict(spec_settled(s, s.len() as int)) =~= full);
    }
    r
}

/// Transforms one DOM node, and recursively its subtree, into one view node.
/// `parse_new_lines` tells whether the newline rule is active for text below
/// this node; it starts `true` at the document root.
pub fn process_element(node: &DomNode, components: &Components, parse_new_lines: bool) -> (v:
    ViewNode)
    ensures
        view_vnode(v) == spec_transform(view_dnode(*node), components@, parse_new_lines),
    decreases *node,
{
    match node {
        DomNode::Comment => ViewNode::Empty,
        DomNode::UndecodableText => ViewNode::Empty,
        DomNode::Text(t) => {
            if parse_new_lines {
                ViewNode::Text(format_text(t.as_str()))
            } else {
                let mut segs: Vec<Inline> = Vec::new();
                segs.push(Inline::Run(t.clone()));
                proof {
                    assert(view_inlines(segs@) =~= seq![InlineV::Run(t@)]);
                }
                ViewNode::Text(segs)
            }
        },
        DomNode::Element(e) => {
            let child_fmt = if str_eq(e.name.as_str(), "code") || str_eq(e.name.as_str(), "pre") {
                false
            } else {
                parse_new_lines
            };
            let mut kids: Vec<ViewNode> = Vec::new();
            let mut i: usize = 0;
            while i < e.children.len()
                invariant
                    *node == DomNode::Element(*e),
                    0 <= i <= e.children@.len(),
                    view_vnodes(kids@) =~= spec_transform_nodes(
                        view_dnodes(e.children@.subrange(0, i as int)),
                        components@,
                        child_fmt,
                    ),
                decreases e.children@.len() - i,
            {
                proof {
                    broadcast use vstd::std_specs::vec::group_vec_axioms;

                    assert(*e == node->Element_0);
                    assert(decreases_to!(*node => node->Element_0));
                    assert(decreases_to!(*e => e.children));
                    assert(decreases_to!(e.children => e.children@));
                    assert(decreases_to!(e.children@ => e.children@[i as int]));
                }
                let kv = process_element(&e.children[i], components, child_fmt);
                let ghost kids0 = kids@;
                kids.push(kv);
                proof {
                    let cs = e.children@;
                    let pre = cs.subrange(0, i as int);
                    let pre1 = cs.subrange(0, i + 1);
                    assert(view_dnodes(pre1).subrange(0, view_dnodes(pre1).len() - 1) =~= view_dnodes(
                        pre,
                    )) by {
                        assert(pre1.subrange(0, pre1.len() - 1) =~= pre);
                    }
                    assert(pre1[pre1.len() - 1] == cs[i as int]);
                    assert(view_vnodes(kids@).subrange(0, view_vnodes(kids@).len() - 1)
                        =~= view_vnodes(kids0)) by {
                        assert(kids@.subrange(0, kids@.len() - 1) =~= kids0);
                    }
                    assert(view_vnodes(kids@) =~= spec_transform_nodes(
                        view_dnodes(pre1),
                        components@,
                        child_fmt,
                    ));
                }
                i = i + 1;
            }
            proof {
                assert(e.children@.subrange(0, e.children@.len() as int) =~= e.children@);
            }
            if components.is_registered(e.name.as_str()) {
                let id = extract_id(&e.attrs);
                let classes = extract_classes(&e.attrs);
                let attributes = clone_attrs(&e.attrs);
                ViewNode::Component(
                    ComponentCall {
                        name: e.name.clone(),
                        props: MdxComponentProps { id, classes, attributes, children: kids },
                    },
                )
            } else {
                match builtin_tag(e.name.as_str()) {
                    Some(tag) => {
                        let id = extract_id(&e.attrs);
                        let classes = extract_classes(&e.attrs);
                        let class = if classes.len() > 0 {
                            Some(join_sp(&classes))
                        } else {
                            proof {
                                assert(classes.deep_view().len() == classes@.len());
                            }
                            None
                        };
                        let attrs = valued_attrs(&e.attrs);
                        ViewNode::Element(ViewElement { tag, id, class, attrs, children: kids })
                    },
                    None => ViewNode::Empty,
                }
            }
        },
    }
}

/// Transforms a sequence of root nodes in document order; the result keeps
/// that order: the node at each position becomes the view node at the same
/// position.
pub fn transform_nodes(nodes: &Vec<DomNode>, components: &Components, parse_new_lines: bool) -> (out:
    Vec<ViewNode>)
    ensures
        view_vnodes(out@) == spec_transform_nodes(view_dnodes(nodes@), components@, parse_new_lines),
        out@.len() == nodes@.len(),
        forall|i: int|
            0 <= i < nodes@.len() ==> view_vnode(#[trigger] out@[i]) == spec_transform(
                view_dnode(nodes@[i]),
                components@,
                parse_new_lines,
            ),
{
    let mut out: Vec<ViewNode> = Vec::new();
    let mut i: usize = 0;
    while i < nodes.len()
        invariant
            0 <= i <= nodes@.len(),
            view_vnodes(out@) =~= spec_transform_nodes(
                view_dnodes(nodes@.subrange(0, i as int)),
                components@,
                parse_new_lines,
            ),
        decreases nodes@.len() - i,
    {
        let kv = process_element(&nodes[i], components, parse_new_lines);
        let ghost out0 = out@;
        out.push(kv);
        proof {
            let cs = nodes@;
            let pre = cs.subrange(0, i as int);
            let pre1 = cs.subrange(0, i + 1);
            assert(view_dnodes(pre1).subrange(0, view_dnodes(pre1).len() - 1) =~= view_dnodes(pre))
                by {
                assert(pre1.subrange(0, pre1.len() - 1) =~= pre);
            }
            assert(pre1[pre1.len() - 1] == cs[i as int]);
            assert(view_vnodes(out@).subrange(0, view_vnodes(out@).len() - 1) =~= view_vnodes(out0))
                by {
                assert(out@.subrange(0, out@.len() - 1) =~= out0);
            }
            assert(view_vnodes(out@) =~= spec_transform_nodes(
                view_dnodes(pre1),
                components@,
                parse_new_lines,
            ));
        }
        i = i + 1;
    }
    proof {
        assert(nodes@.subrange(0, nodes@.len() as int) =~= nodes@);
        lemma_view_dnodes_index(nodes@);
        lemma_view_vnodes_index(out@);
        lemma_transform_preserves_order(view_dnodes(nodes@), components@, parse_new_lines);
    }
    out
}

} // verus!
