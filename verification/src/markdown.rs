//! Document parsing: front-matter extraction and markdown-to-HTML
//! conversion, at the interface to the outside crates that perform them.

use vstd::prelude::*;

verus! {

/// An error that aborts a render: the input document itself is malformed
/// and no partial view tree can be trusted.
#[derive(Debug, Clone, Copy, PartialEq, Eq)]
pub enum MdxError {
    /// The document's front-matter block does not parse.
    Frontmatter,
    /// The document's HTML serialization does not parse.
    InvalidHtml,
}

/// The body of a document after its optional front-matter block is taken
/// off, `None` when the block is malformed. The split depends on the
/// document text alone.
pub uninterp spec fn frontmatter_body(s: Seq<char>) -> Option<Seq<char>>;

/// The HTML serialization of a markdown text. It depends on the markdown
/// text alone.
pub uninterp spec fn html_of(md: Seq<char>) -> Seq<char>;

/// The parsed front-matter value, carried opaquely to the caller.
#[verifier::external_type_specification]
#[verifier::external_body]
pub struct ExYaml(frontmatter::Yaml);

/// Relies on frontmatter::parse_and_find_content: splits a document into its
/// optional leading YAML block and the remaining body, failing exactly when
/// a present block is not valid YAML.
#[verifier::external_body]
fn split_frontmatter(s: &str) -> (r: Result<(Option<frontmatter::Yaml>, String), MdxError>)
    ensures
        match r {
            Ok(p) => frontmatter_body(s@) == Some(p.1@),
            Err(e) => frontmatter_body(s@) is None && e == MdxError::Frontmatter,
        },
{
    match frontmatter::parse_and_find_content(s) {
        Ok((fm, rest)) => Ok((fm, rest.to_string())),
        Err(_) => Err(MdxError::Frontmatter),
    }
}

/// Relies on pulldown_cmark::html::push_html: the markdown text in, its
/// HTML serialization out.
#[verifier::external_body]
fn markdown_to_html(s: &str) -> (r: String)
    ensures
        r@ == html_of(s@),
{
    let parser = pulldown_cmark::Parser::new(s);
    let mut out = String::new();
    pulldown_cmark::html::push_html(&mut out, parser);
    out
}

/// Parses a markdown source into its optional front-matter and the HTML
/// serialization of its body. Fails exactly when a present front-matter
/// block is malformed.
pub fn parse(source: &str) -> (r: Result<(Option<frontmatter::Yaml>, String), MdxError>)
    ensures
        match r {
            Ok(p) => frontmatter_body(source@) matches Some(body) && p.1@ == html_of(body),
            Err(e) => frontmatter_body(source@) is None && e == MdxError::Frontmatter,
        },
{
    match split_frontmatter(source) {
        Ok((fm, body)) => {
            let html = markdown_to_html(body.as_str());
            Ok((fm, html))
        },
        Err(e) => Err(e),
    }
}

} // verus!
