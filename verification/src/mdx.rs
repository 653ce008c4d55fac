//! The render entry point: document text to view-node tree, through the
//! document parser, the HTML tree builder and the transform.

use vstd::prelude::*;

verus! {

use crate::dom::DomNode;
use crate::dom::DomNodeV;
use crate::dom::DomElement;
use crate::dom::Attr;
use crate::dom::view_dnodes;
use crate::markdown::MdxError;
use crate::markdown::frontmatter_body;
use crate::markdown::html_of;
use crate::registry::Components;
use crate::transform::spec_transform_nodes;
use crate::transform::transform_nodes;
use crate::view::ViewNode;
use crate::view::view_vnodes;

/// The node trees that HTML documents parse to, `None` for an HTML text the
/// tree builder refuses. Attribute order inside an element is not part of a
/// tree's value, so the tree depends on the HTML text alone.
pub uninterp spec fn dom_of(html: Seq<char>) -> Option<Seq<DomNodeV>>;

/// tl's node type, carried opaquely between the conversion helpers.
#[verifier::external_type_specification]
#[verifier::external_body]
pub struct ExNode<'a>(tl::Node<'a>);

/// tl's parser state, which resolves node handles to nodes.
#[verifier::external_type_specification]
#[verifier::external_body]
pub struct ExParser<'a>(tl::Parser<'a>);

/// tl's element type, carried opaquely between the conversion helpers.
#[verifier::external_type_specification]
#[verifier::external_body]
pub struct ExHTMLTag<'a>(tl::HTMLTag<'a>);

/// Relies on tl's node classification: a comment, a raw text run (carried
/// over as text when its bytes decode, marked undecodable when not), or an
/// element.
#[verifier::external_body]
fn convert_node<'a>(n: &tl::Node<'a>, p: &tl::Parser<'a>) -> DomNode {
    match n {
        tl::Node::Comment(_) => DomNode::Comment,
        tl::Node::Raw(raw) => match String::from_utf8(raw.as_bytes().to_vec()) {
            Ok(t) => DomNode::Text(t),
            Err(_) => DomNode::UndecodableText,
        },
        tl::Node::Tag(t) => DomNode::Element(convert_tag(t, p)),
    }
}

/// Relies on tl::HTMLTag: the tag's name, its attributes (name and optional
/// value, in the parser's enumeration order), and its child nodes in
/// document order; a child handle that resolves to no node is carried over
/// as a comment, which renders as nothing.
#[verifier::external_body]
fn convert_tag<'a>(t: &tl::HTMLTag<'a>, p: &tl::Parser<'a>) -> DomElement {
    let attrs: Vec<Attr> = t.attributes().iter().map(
        |(k, v)| Attr { name: k.to_string(), value: v.map(|x| x.to_string()) },
    ).collect();
    let children: Vec<DomNode> = t.children().top().iter().map(
        |h| match h.get(p) {
            Some(n) => convert_node(n, p),
            None => DomNode::Comment,
        },
    ).collect();
    DomElement { name: t.name().as_utf8_str().to_string(), attrs, children }
}

/// Relies on tl::parse: an HTML text parsed into a tree of nodes, carried
/// over into plain values; `None` exactly when the tree builder refuses the
/// text.
#[verifier::external_body]
fn parse_document(html: &str) -> (r: Option<Vec<DomNode>>)
    ensures
        match r {
            Some(v) => dom_of(html@) == Some(view_dnodes(v@)),
            None => dom_of(html@) is None,
        },
{
    match tl::parse(html, tl::ParserOptions::default()) {
        Ok(dom) => Some(
            dom.children().iter().map(
                |h| match h.get(dom.parser()) {
                    Some(n) => convert_node(n, dom.parser()),
                    None => DomNode::Comment,
                },
            ).collect(),
        ),
        Err(_) => None,
    }
}

/// What a render of `source` under the registered names `reg` returns:
/// the transformed root nodes of the parsed document in document order on
/// success, and otherwise the error naming the parsing stage that refused
/// the document.
pub open spec fn render_post(
    source: Seq<char>,
    reg: Set<Seq<char>>,
    r: Result<Vec<ViewNode>, MdxError>,
) -> bool {
    match r {
        Ok(views) => match frontmatter_body(source) {
            Some(body) => match dom_of(html_of(body)) {
                Some(doms) => view_vnodes(views@) == spec_transform_nodes(doms, reg, true),
                None => false,
            },
            None => false,
        },
        Err(e) => match frontmatter_body(source) {
            Some(body) => e == MdxError::InvalidHtml && dom_of(html_of(body)) is None,
            None => e == MdxError::Frontmatter,
        },
    }
}

/// Renders a markdown source into a tree of view nodes. Custom components
/// can be used in the markdown source: an element whose tag name is
/// registered in `components` becomes a component invocation. Newline
/// formatting starts active at the root. Fails exactly when the front-matter
/// block or the HTML serialization of the document is malformed.
#[allow(non_snake_case)]
pub fn Mdx(source: &str, components: &Components) -> (r: Result<Vec<ViewNode>, MdxError>)
    ensures
        render_post(source@, components@, r),
{
    let (_fm, html) = match crate::markdown::parse(source) {
        Ok(p) => p,
        Err(e) => {
            return Err(e);
        },
    };
    let doms = match parse_document(html.as_str()) {
        Some(d) => d,
        None => {
            return Err(MdxError::InvalidHtml);
        },
    };
    let out = transform_nodes(&doms, components, true);
    Ok(out)
}

/// Rendering has no hidden state: two renders of the same source with the
/// same registered names agree — both succeed with equal view trees, or
/// both fail with the same error.
pub proof fn lemma_render_deterministic(
    source: Seq<char>,
    reg: Set<Seq<char>>,
    r1: Result<Vec<ViewNode>, MdxError>,
    r2: Result<Vec<ViewNode>, MdxError>,
)
    requires
        render_post(source, reg, r1),
        render_post(source, reg, r2),
    ensures
        r1 is Ok <==> r2 is Ok,
        r1 matches Ok(v1) ==> (r2 matches Ok(v2) && view_vnodes(v1@) == view_vnodes(v2@)),
        r1 matches Err(e1) ==> (r2 matches Err(e2) && e1 == e2),
{
}

} // verus!
