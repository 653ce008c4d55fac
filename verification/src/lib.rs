//! Markdown documents with embedded custom components, rendered to a tree of
//! view nodes.
//!
//! A document (markdown body, optionally preceded by a YAML front-matter
//! block) is converted to HTML, the HTML is parsed into a DOM, and the DOM is
//! transformed node by node into view nodes. Tag names registered in a
//! [`registry::Components`] are intercepted: instead of the built-in element
//! mapping, such an element becomes a component invocation carrying its
//! extracted props (id, class list, attributes, transformed children). Bare
//! newlines in text are turned into explicit line breaks, except inside
//! `code` and `pre`.

pub mod dom;
pub mod markdown;
pub mod mdx;
pub mod registry;
pub mod tags;
pub mod text;
pub mod transform;
pub mod view;
