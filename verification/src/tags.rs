//! The mapping from standard tag names to built-in view element kinds.
//!
//! A closed set of standard HTML tag names, each answered with a view element
//! kind; a name outside the set is answered with `None`, which the transform
//! turns into an empty view node. The lookup is a pure function: spec and
//! executable sides test the same names in the same order.

use vstd::prelude::*;

verus! {

/// The built-in view element kinds, one per recognized standard tag name.
#[derive(Debug, Clone, Copy, PartialEq, Eq)]
pub enum ViewTag {
    Html,
    Base,
    Head,
    Link,
    Meta,
    Style,
    Title,
    Body,
    Address,
    Article,
    Aside,
    Footer,
    Header,
    Hgroup,
    H1,
    H2,
    H3,
    H4,
    H5,
    H6,
    Main,
    Nav,
    Section,
    Blockquote,
    Dd,
    Div,
    Dl,
    Dt,
    Figcaption,
    Figure,
    Hr,
    Li,
    Ol,
    P,
    Pre,
    Ul,
    A,
    Abbr,
    B,
    Bdi,
    Bdo,
    Br,
    Cite,
    Code,
    Data,
    Dfn,
    Em,
    I,
    Kbd,
    Mark,
    Q,
    Rp,
    Rt,
    Ruby,
    S,
    Samp,
    Small,
    Span,
    Strong,
    Sub,
    Sup,
    Time,
    U,
    Var,
    Wbr,
    Area,
    Audio,
    Img,
    MapEl,
    Track,
    Video,
    Embed,
    Iframe,
    Object,
    Param,
    Picture,
    Portal,
    Source,
    Svg,
    Math,
    Canvas,
    Noscript,
    Script,
    Del,
    Ins,
    Caption,
    Col,
    Colgroup,
    Table,
    Tbody,
    Td,
    Tfoot,
    Th,
    Thead,
    Tr,
    Button,
    Datalist,
    Fieldset,
    Form,
    Input,
    Label,
    Legend,
    Meter,
    Optgroup,
    OptionEl,
    Output,
    Progress,
    Select,
    Textarea,
    Details,
    Dialog,
    Menu,
    Summary,
    Slot,
    Template,
}

/// The element kind a standard tag name stands for, `None` for a name
/// outside the standard set.
pub open spec fn spec_builtin_tag(name: Seq<char>) -> Option<ViewTag> {
    if name == "html"@ {
        Some(ViewTag::Html)
    } else if name == "base"@ {
        Some(ViewTag::Base)
    } else if name == "head"@ {
        Some(ViewTag::Head)
    } else if name == "link"@ {
        Some(ViewTag::Link)
    } else if name == "meta"@ {
        Some(ViewTag::Meta)
    } else if name == "style"@ {
        Some(ViewTag::Style)
    } else if name == "title"@ {
        Some(ViewTag::Title)
    } else if name == "body"@ {
        Some(ViewTag::Body)
    } else if name == "address"@ {
        Some(ViewTag::Address)
    } else if name == "article"@ {
        Some(ViewTag::Article)
    } else if name == "aside"@ {
        Some(ViewTag::Aside)
    } else if name == "footer"@ {
        Some(ViewTag::Footer)
    } else if name == "header"@ {
        Some(ViewTag::Header)
    } else if name == "hgroup"@ {
        Some(ViewTag::Hgroup)
    } else if name == "h1"@ {
        Some(ViewTag::H1)
    } else if name == "h2"@ {
        Some(ViewTag::H2)
    } else if name == "h3"@ {
        Some(ViewTag::H3)
    } else if name == "h4"@ {
        Some(ViewTag::H4)
    } else if name == "h5"@ {
        Some(ViewTag::H5)
    } else if name == "h6"@ {
        Some(ViewTag::H6)
    } else if name == "main"@ {
        Some(ViewTag::Main)
    } else if name == "nav"@ {
        Some(ViewTag::Nav)
    } else if name == "section"@ {
        Some(ViewTag::Section)
    } else if name == "blockquote"@ {
        Some(ViewTag::Blockquote)
    } else if name == "dd"@ {
        Some(ViewTag::Dd)
    } else if name == "div"@ {
        Some(ViewTag::Div)
    } else if name == "dl"@ {
        Some(ViewTag::Dl)
    } else if name == "dt"@ {
        Some(ViewTag::Dt)
    } else if name == "figcaption"@ {
        Some(ViewTag::Figcaption)
    } else if name == "figure"@ {
        Some(ViewTag::Figure)
    } else if name == "hr"@ {
        Some(ViewTag::Hr)
    } else if name == "li"@ {
        Some(ViewTag::Li)
    } else if name == "ol"@ {
        Some(ViewTag::Ol)
    } else if name == "p"@ {
        Some(ViewTag::P)
    } else if name == "pre"@ {
        Some(ViewTag::Pre)
    } else if name == "ul"@ {
        Some(ViewTag::Ul)
    } else if name == "a"@ {
        Some(ViewTag::A)
    } else if name == "abbr"@ {
        Some(ViewTag::Abbr)
    } else if name == "b"@ {
        Some(ViewTag::B)
    } else if name == "bdi"@ {
        Some(ViewTag::Bdi)
    } else if name == "bdo"@ {
        Some(ViewTag::Bdo)
    } else if name == "br"@ {
        Some(ViewTag::Br)
    } else if name == "cite"@ {
        Some(ViewTag::Cite)
    } else if name == "code"@ {
        Some(ViewTag::Code)
    } else if name == "data"@ {
        Some(ViewTag::Data)
    } else if name == "dfn"@ {
        Some(ViewTag::Dfn)
    } else if name == "em"@ {
        Some(ViewTag::Em)
    } else if name == "i"@ {
        Some(ViewTag::I)
    } else if name == "kbd"@ {
        Some(ViewTag::Kbd)
    } else if name == "mark"@ {
        Some(ViewTag::Mark)
    } else if name == "q"@ {
        Some(ViewTag::Q)
    } else if name == "rp"@ {
        Some(ViewTag::Rp)
    } else if name == "rt"@ {
        Some(ViewTag::Rt)
    } else if name == "ruby"@ {
        Some(ViewTag::Ruby)
    } else if name == "s"@ {
        Some(ViewTag::S)
    } else if name == "samp"@ {
        Some(ViewTag::Samp)
    } else if name == "small"@ {
        Some(ViewTag::Small)
    } else if name == "span"@ {
        Some(ViewTag::Span)
    } else if name == "strong"@ {
        Some(ViewTag::Strong)
    } else if name == "sub"@ {
        Some(ViewTag::Sub)
    } else if name == "sup"@ {
        Some(ViewTag::Sup)
    } else if name == "time"@ {
        Some(ViewTag::Time)
    } else if name == "u"@ {
        Some(ViewTag::U)
    } else if name == "var"@ {
        Some(ViewTag::Var)
    } else if name == "wbr"@ {
        Some(ViewTag::Wbr)
    } else if name == "area"@ {
        Some(ViewTag::Area)
    } else if name == "audio"@ {
        Some(ViewTag::Audio)
    } else if name == "img"@ {
        Some(ViewTag::Img)
    } else if name == "map"@ {
        Some(ViewTag::MapEl)
    } else if name == "track"@ {
        Some(ViewTag::Track)
    } else if name == "video"@ {
        Some(ViewTag::Video)
    } else if name == "embed"@ {
        Some(ViewTag::Embed)
    } else if name == "iframe"@ {
        Some(ViewTag::Iframe)
    } else if name == "object"@ {
        Some(ViewTag::Object)
    } else if name == "param"@ {
        Some(ViewTag::Param)
    } else if name == "picture"@ {
        Some(ViewTag::Picture)
    } else if name == "portal"@ {
        Some(ViewTag::Portal)
    } else if name == "source"@ {
        Some(ViewTag::Source)
    } else if name == "svg"@ {
        Some(ViewTag::Svg)
    } else if name == "math"@ {
        Some(ViewTag::Math)
    } else if name == "canvas"@ {
        Some(ViewTag::Canvas)
    } else if name == "noscript"@ {
        Some(ViewTag::Noscript)
    } else if name == "script"@ {
        Some(ViewTag::Script)
    } else if name == "del"@ {
        Some(ViewTag::Del)
    } else if name == "ins"@ {
        Some(ViewTag::Ins)
    } else if name == "caption"@ {
        Some(ViewTag::Caption)
    } else if name == "col"@ {
        Some(ViewTag::Col)
    } else if name == "colgroup"@ {
        Some(ViewTag::Colgroup)
    } else if name == "table"@ {
        Some(ViewTag::Table)
    } else if name == "tbody"@ {
        Some(ViewTag::Tbody)
    } else if name == "td"@ {
        Some(ViewTag::Td)
    } else if name == "tfoot"@ {
        Some(ViewTag::Tfoot)
    } else if name == "th"@ {
        Some(ViewTag::Th)
    } else if name == "thead"@ {
        Some(ViewTag::Thead)
    } else if name == "tr"@ {
        Some(ViewTag::Tr)
    } else if name == "button"@ {
        Some(ViewTag::Button)
    } else if name == "datalist"@ {
        Some(ViewTag::Datalist)
    } else if name == "fieldset"@ {
        Some(ViewTag::Fieldset)
    } else if name == "form"@ {
        Some(ViewTag::Form)
    } else if name == "input"@ {
        Some(ViewTag::Input)
    } else if name == "label"@ {
        Some(ViewTag::Label)
    } else if name == "legend"@ {
        Some(ViewTag::Legend)
    } else if name == "meter"@ {
        Some(ViewTag::Meter)
    } else if name == "optgroup"@ {
        Some(ViewTag::Optgroup)
    } else if name == "option"@ {
        Some(ViewTag::OptionEl)
    } else if name == "output"@ {
        Some(ViewTag::Output)
    } else if name == "progress"@ {
        Some(ViewTag::Progress)
    } else if name == "select"@ {
        Some(ViewTag::Select)
    } else if name == "textarea"@ {
        Some(ViewTag::Textarea)
    } else if name == "details"@ {
        Some(ViewTag::Details)
    } else if name == "dialog"@ {
        Some(ViewTag::Dialog)
    } else if name == "menu"@ {
        Some(ViewTag::Menu)
    } else if name == "summary"@ {
        Some(ViewTag::Summary)
    } else if name == "slot"@ {
        Some(ViewTag::Slot)
    } else if name == "template"@ {
        Some(ViewTag::Template)
    } else {
        None
    }
}

/// Looks `name` up in the standard tag set.
#[verifier::rlimit(100)]
pub fn builtin_tag(name: &str) -> (r: Option<ViewTag>)
    ensures
        r == spec_builtin_tag(name@),
{
    if crate::text::str_eq(name, "html") {
        Some(ViewTag::Html)
    } else if crate::text::str_eq(name, "base") {
        Some(ViewTag::Base)
    } else if crate::text::str_eq(name, "head") {
        Some(ViewTag::Head)
    } else if crate::text::str_eq(name, "link") {
        Some(ViewTag::Link)
    } else if crate::text::str_eq(name, "meta") {
        Some(ViewTag::Meta)
    } else if crate::text::str_eq(name, "style") {
        Some(ViewTag::Style)
    } else if crate::text::str_eq(name, "title") {
        Some(ViewTag::Title)
    } else if crate::text::str_eq(name, "body") {
        Some(ViewTag::Body)
    } else if crate::text::str_eq(name, "address") {
        Some(ViewTag::Address)
    } else if crate::text::str_eq(name, "article") {
        Some(ViewTag::Article)
    } else if crate::text::str_eq(name, "aside") {
        Some(ViewTag::Aside)
    } else if crate::text::str_eq(name, "footer") {
        Some(ViewTag::Footer)
    } else if crate::text::str_eq(name, "header") {
        Some(ViewTag::Header)
    } else if crate::text::str_eq(name, "hgroup") {
        Some(ViewTag::Hgroup)
    } else if crate::text::str_eq(name, "h1") {
        Some(ViewTag::H1)
    } else if crate::text::str_eq(name, "h2") {
        Some(ViewTag::H2)
    } else if crate::text::str_eq(name, "h3") {
        Some(ViewTag::H3)
    } else if crate::text::str_eq(name, "h4") {
        Some(ViewTag::H4)
    } else if crate::text::str_eq(name, "h5") {
        Some(ViewTag::H5)
    } else if crate::text::str_eq(name, "h6") {
        Some(ViewTag::H6)
    } else if crate::text::str_eq(name, "main") {
        Some(ViewTag::Main)
    } else if crate::text::str_eq(name, "nav") {
        Some(ViewTag::Nav)
    } else if crate::text::str_eq(name, "section") {
        Some(ViewTag::Section)
    } else if crate::text::str_eq(name, "blockquote") {
        Some(ViewTag::Blockquote)
    } else if crate::text::str_eq(name, "dd") {
        Some(ViewTag::Dd)
    } else if crate::text::str_eq(name, "div") {
        Some(ViewTag::Div)
    } else if crate::text::str_eq(name, "dl") {
        Some(ViewTag::Dl)
    } else if crate::text::str_eq(name, "dt") {
        Some(ViewTag::Dt)
    } else if crate::text::str_eq(name, "figcaption") {
        Some(ViewTag::Figcaption)
    } else if crate::text::str_eq(name, "figure") {
        Some(ViewTag::Figure)
    } else if crate::text::str_eq(name, "hr") {
        Some(ViewTag::Hr)
    } else if crate::text::str_eq(name, "li") {
        Some(ViewTag::Li)
    } else if crate::text::str_eq(name, "ol") {
        Some(ViewTag::Ol)
    } else if crate::text::str_eq(name, "p") {
        Some(ViewTag::P)
    } else if crate::text::str_eq(name, "pre") {
        Some(ViewTag::Pre)
    } else if crate::text::str_eq(name, "ul") {
        Some(ViewTag::Ul)
    } else if crate::text::str_eq(name, "a") {
        Some(ViewTag::A)
    } else if crate::text::str_eq(name, "abbr") {
        Some(ViewTag::Abbr)
    } else if crate::text::str_eq(name, "b") {
        Some(ViewTag::B)
    } else if crate::text::str_eq(name, "bdi") {
        Some(ViewTag::Bdi)
    } else if crate::text::str_eq(name, "bdo") {
        Some(ViewTag::Bdo)
    } else if crate::text::str_eq(name, "br") {
        Some(ViewTag::Br)
    } else if crate::text::str_eq(name, "cite") {
        Some(ViewTag::Cite)
    } else if crate::text::str_eq(name, "code") {
        Some(ViewTag::Code)
    } else if crate::text::str_eq(name, "data") {
        Some(ViewTag::Data)
    } else if crate::text::str_eq(name, "dfn") {
        Some(ViewTag::Dfn)
    } else if crate::text::str_eq(name, "em") {
        Some(ViewTag::Em)
    } else if crate::text::str_eq(name, "i") {
        Some(ViewTag::I)
    } else if crate::text::str_eq(name, "kbd") {
        Some(ViewTag::Kbd)
    } else if crate::text::str_eq(name, "mark") {
        Some(ViewTag::Mark)
    } else if crate::text::str_eq(name, "q") {
        Some(ViewTag::Q)
    } else if crate::text::str_eq(name, "rp") {
        Some(ViewTag::Rp)
    } else if crate::text::str_eq(name, "rt") {
        Some(ViewTag::Rt)
    } else if crate::text::str_eq(name, "ruby") {
        Some(ViewTag::Ruby)
    } else if crate::text::str_eq(name, "s") {
        Some(ViewTag::S)
    } else if crate::text::str_eq(name, "samp") {
        Some(ViewTag::Samp)
    } else if crate::text::str_eq(name, "small") {
        Some(ViewTag::Small)
    } else if crate::text::str_eq(name, "span") {
        Some(ViewTag::Span)
    } else if crate::text::str_eq(name, "strong") {
        Some(ViewTag::Strong)
    } else if crate::text::str_eq(name, "sub") {
        Some(ViewTag::Sub)
    } else if crate::text::str_eq(name, "sup") {
        Some(ViewTag::Sup)
    } else if crate::text::str_eq(name, "time") {
        Some(ViewTag::Time)
    } else if crate::text::str_eq(name, "u") {
        Some(ViewTag::U)
    } else if crate::text::str_eq(name, "var") {
        Some(ViewTag::Var)
    } else if crate::text::str_eq(name, "wbr") {
        Some(ViewTag::Wbr)
    } else if crate::text::str_eq(name, "area") {
        Some(ViewTag::Area)
    } else if crate::text::str_eq(name, "audio") {
        Some(ViewTag::Audio)
    } else if crate::text::str_eq(name, "img") {
        Some(ViewTag::Img)
    } else if crate::text::str_eq(name, "map") {
        Some(ViewTag::MapEl)
    } else if crate::text::str_eq(name, "track") {
        Some(ViewTag::Track)
    } else if crate::text::str_eq(name, "video") {
        Some(ViewTag::Video)
    } else if crate::text::str_eq(name, "embed") {
        Some(ViewTag::Embed)
    } else if crate::text::str_eq(name, "iframe") {
        Some(ViewTag::Iframe)
    } else if crate::text::str_eq(name, "object") {
        Some(ViewTag::Object)
    } else if crate::text::str_eq(name, "param") {
        Some(ViewTag::Param)
    } else if crate::text::str_eq(name, "picture") {
        Some(ViewTag::Picture)
    } else if crate::text::str_eq(name, "portal") {
        Some(ViewTag::Portal)
    } else if crate::text::str_eq(name, "source") {
        Some(ViewTag::Source)
    } else if crate::text::str_eq(name, "svg") {
        Some(ViewTag::Svg)
    } else if crate::text::str_eq(name, "math") {
        Some(ViewTag::Math)
    } else if crate::text::str_eq(name, "canvas") {
        Some(ViewTag::Canvas)
    } else if crate::text::str_eq(name, "noscript") {
        Some(ViewTag::Noscript)
    } else if crate::text::str_eq(name, "script") {
        Some(ViewTag::Script)
    } else if crate::text::str_eq(name, "del") {
        Some(ViewTag::Del)
    } else if crate::text::str_eq(name, "ins") {
        Some(ViewTag::Ins)
    } else if crate::text::str_eq(name, "caption") {
        Some(ViewTag::Caption)
    } else if crate::text::str_eq(name, "col") {
        Some(ViewTag::Col)
    } else if crate::text::str_eq(name, "colgroup") {
        Some(ViewTag::Colgroup)
    } else if crate::text::str_eq(name, "table") {
        Some(ViewTag::Table)
    } else if crate::text::str_eq(name, "tbody") {
        Some(ViewTag::Tbody)
    } else if crate::text::str_eq(name, "td") {
        Some(ViewTag::Td)
    } else if crate::text::str_eq(name, "tfoot") {
        Some(ViewTag::Tfoot)
    } else if crate::text::str_eq(name, "th") {
        Some(ViewTag::Th)
    } else if crate::text::str_eq(name, "thead") {
        Some(ViewTag::Thead)
    } else if crate::text::str_eq(name, "tr") {
        Some(ViewTag::Tr)
    } else if crate::text::str_eq(name, "button") {
        Some(ViewTag::Button)
    } else if crate::text::str_eq(name, "datalist") {
        Some(ViewTag::Datalist)
    } else if crate::text::str_eq(name, "fieldset") {
        Some(ViewTag::Fieldset)
    } else if crate::text::str_eq(name, "form") {
        Some(ViewTag::Form)
    } else if crate::text::str_eq(name, "input") {
        Some(ViewTag::Input)
    } else if crate::text::str_eq(name, "label") {
        Some(ViewTag::Label)
    } else if crate::text::str_eq(name, "legend") {
        Some(ViewTag::Legend)
    } else if crate::text::str_eq(name, "meter") {
        Some(ViewTag::Meter)
    } else if crate::text::str_eq(name, "optgroup") {
        Some(ViewTag::Optgroup)
    } else if crate::text::str_eq(name, "option") {
        Some(ViewTag::OptionEl)
    } else if crate::text::str_eq(name, "output") {
        Some(ViewTag::Output)
    } else if crate::text::str_eq(name, "progress") {
        Some(ViewTag::Progress)
    } else if crate::text::str_eq(name, "select") {
        Some(ViewTag::Select)
    } else if crate::text::str_eq(name, "textarea") {
        Some(ViewTag::Textarea)
    } else if crate::text::str_eq(name, "details") {
        Some(ViewTag::Details)
    } else if crate::text::str_eq(name, "dialog") {
        Some(ViewTag::Dialog)
    } else if crate::text::str_eq(name, "menu") {
        Some(ViewTag::Menu)
    } else if crate::text::str_eq(name, "summary") {
        Some(ViewTag::Summary)
    } else if crate::text::str_eq(name, "slot") {
        Some(ViewTag::Slot)
    } else if crate::text::str_eq(name, "template") {
        Some(ViewTag::Template)
    } else {
        None
    }
}

} // verus!
