//! The view tree that a transform produces, as plain values.
//!
//! A view node is opaque to the host rendering layer's internals: this
//! library only composes nodes. A node is empty (comments, unknown tags,
//! undecodable text render as nothing), a text run with explicit line-break
//! markers, a built-in element, or the invocation of a registered component
//! with its extracted props.

use vstd::prelude::*;

verus! {

use crate::dom::Attr;
use crate::dom::attrs_map_of;
use crate::tags::ViewTag;

/// A piece of formatted text: a literal run, or an explicit line break.
#[derive(Debug, PartialEq, Eq)]
pub enum Inline {
    Run(String),
    Break,
}

/// The value of an [`Inline`].
pub enum InlineV {
    Run(Seq<char>),
    Break,
}

/// An attribute that carries a value; valueless attributes are never applied
/// to a built-in element.
#[derive(Debug, PartialEq, Eq)]
pub struct ValuedAttr {
    pub name: String,
    pub value: String,
}

/// One node of the produced view tree.
#[derive(Debug, PartialEq, Eq)]
pub enum ViewNode {
    Empty,
    Text(Vec<Inline>),
    Element(ViewElement),
    Component(ComponentCall),
}

/// A built-in element: its kind, the extracted id, the class tokens re-joined
/// with single spaces (absent when there are no tokens), every attribute that
/// has a value, and the transformed children in document order. When `class`
/// is present it supersedes a `class` entry of `attrs` in the rendered
/// output.
#[derive(Debug, PartialEq, Eq)]
pub struct ViewElement {
    pub tag: ViewTag,
    pub id: Option<String>,
    pub class: Option<String>,
    pub attrs: Vec<ValuedAttr>,
    pub children: Vec<ViewNode>,
}

/// The invocation of a registered component: the tag name it was registered
/// under, and the props extracted from the intercepted element.
#[derive(Debug, PartialEq, Eq)]
pub struct ComponentCall {
    pub name: String,
    pub props: MdxComponentProps,
}

/// Props handed to a registered component: the element's id, its class
/// tokens in order, every attribute (a valueless one maps to `None`), and
/// the already-transformed children. The host layer hands the children to
/// the component as a deferred producer, so a component may render them
/// once, many times or not at all.
#[derive(Debug, PartialEq, Eq)]
pub struct MdxComponentProps {
    pub id: Option<String>,
    pub classes: Vec<String>,
    pub attributes: Vec<Attr>,
    pub children: Vec<ViewNode>,
}

/// The mathematical shape of a [`ViewNode`].
pub enum ViewNodeV {
    Empty,
    Text(Seq<InlineV>),
    Element(ViewElementV),
    Component(ComponentCallV),
}

/// The mathematical shape of a [`ViewElement`]; the valued attributes are a
/// mapping from name to value.
pub struct ViewElementV {
    pub tag: ViewTag,
    pub id: Option<Seq<char>>,
    pub class: Option<Seq<char>>,
    pub attrs: Map<Seq<char>, Seq<char>>,
    pub children: Seq<ViewNodeV>,
}

/// The mathematical shape of a [`ComponentCall`].
pub struct ComponentCallV {
    pub name: Seq<char>,
    pub props: MdxComponentPropsV,
}

/// The mathematical shape of [`MdxComponentProps`].
pub struct MdxComponentPropsV {
    pub id: Option<Seq<char>>,
    pub classes: Seq<Seq<char>>,
    pub attributes: Map<Seq<char>, Option<Seq<char>>>,
    pub children: Seq<ViewNodeV>,
}

/// The value of a sequence of [`Inline`] segments.
pub open spec fn view_inlines(s: Seq<Inline>) -> Seq<InlineV> {
    s.map_values(
        |x: Inline|
            match x {
                Inline::Run(t) => InlineV::Run(t@),
                Inline::Break => InlineV::Break,
            },
    )
}

/// The mapping that a sequence of valued attributes denotes; a later
/// occurrence of a name wins.
pub open spec fn valued_map_of(s: Seq<ValuedAttr>) -> Map<Seq<char>, Seq<char>>
    decreases s.len(),
{
    if s.len() == 0 {
        Map::empty()
    } else {
        valued_map_of(s.subrange(0, s.len() - 1)).insert(
            s[s.len() - 1].name@,
            s[s.len() - 1].value@,
        )
    }
}

/// The value of a [`ViewNode`].
pub open spec fn view_vnode(v: ViewNode) -> ViewNodeV
    decreases v,
{
    match v {
        ViewNode::Empty => ViewNodeV::Empty,
        ViewNode::Text(segs) => ViewNodeV::Text(view_inlines(segs@)),
        ViewNode::Element(e) => ViewNodeV::Element(
            ViewElementV {
                tag: e.tag,
                id: e.id.deep_view(),
                class: e.class.deep_view(),
                attrs: valued_map_of(e.attrs@),
                children: view_vnodes(e.children@),
            },
        ),
        ViewNode::Component(c) => ViewNodeV::Component(
            ComponentCallV {
                name: c.name@,
                props: MdxComponentPropsV {
                    id: c.props.id.deep_view(),
                    classes: c.props.classes.deep_view(),
                    attributes: attrs_map_of(c.props.attributes@),
                    children: view_vnodes(c.props.children@),
                },
            },
        ),
    }
}

/// The values of a sequence of [`ViewNode`]s, in order.
pub open spec fn view_vnodes(s: Seq<ViewNode>) -> Seq<ViewNodeV>
    decreases s,
{
    if s.len() == 0 {
        Seq::empty()
    } else {
        view_vnodes(s.subrange(0, s.len() - 1)).push(view_vnode(s[s.len() - 1]))
    }
}

/// `view_vnodes` is pointwise `view_vnode`.
pub proof fn lemma_view_vnodes_index(s: Seq<ViewNode>)
    ensures
        view_vnodes(s).len() == s.len(),
        forall|i: int| 0 <= i < s.len() ==> view_vnodes(s)[i] == view_vnode(#[trigger] s[i]),
    decreases s.len(),
{
    if s.len() > 0 {
        lemma_view_vnodes_index(s.subrange(0, s.len() - 1));
        assert forall|i: int| 0 <= i < s.len() implies view_vnodes(s)[i] == view_vnode(
            #[trigger] s[i],
        ) by {
            if i < s.len() - 1 {
                assert(s.subrange(0, s.len() - 1)[i] == s[i]);
            }
        }
    }
}

} // verus!
