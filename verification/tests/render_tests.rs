use leptos_mdx::markdown::MdxError;
use leptos_mdx::markdown::parse;
use leptos_mdx::mdx::Mdx;
use leptos_mdx::registry::Components;
use leptos_mdx::tags::ViewTag;
use leptos_mdx::view::Inline;
use leptos_mdx::view::ViewNode;

fn run(s: &str) -> Inline {
    Inline::Run(s.to_string())
}

#[test]
fn parse_renders_markdown_to_html() {
    let (fm, html) = parse("# Hi").expect("plain markdown parses");
    assert!(fm.is_none());
    assert_eq!(html, "<h1>Hi</h1>\n".to_string());
}

#[test]
fn parse_splits_frontmatter_off() {
    let (fm, html) = parse("---\ntitle: X\n---\nbody").expect("front-matter parses");
    assert!(fm.is_some());
    assert_eq!(html, "<p>body</p>\n".to_string());
}

#[test]
fn parse_rejects_malformed_frontmatter() {
    let r = parse("---\ntitle: [\n---\nbody");
    assert_eq!(r.err(), Some(MdxError::Frontmatter));
}

#[test]
fn render_converts_soft_wrap_to_break() {
    let reg = Components::new();
    let views = Mdx("hello\nworld", &reg).expect("renders");
    match &views[0] {
        ViewNode::Element(e) => {
            assert_eq!(e.tag, ViewTag::P);
            assert_eq!(
                e.children,
                vec![ViewNode::Text(vec![run("hello"), Inline::Break, run("world")])]
            );
        }
        other => panic!("expected a paragraph, got {:?}", other),
    }
}

#[test]
fn render_keeps_newlines_inside_code_blocks() {
    let reg = Components::new();
    let views = Mdx("```\nx\ny\n```", &reg).expect("renders");
    match &views[0] {
        ViewNode::Element(pre) => {
            assert_eq!(pre.tag, ViewTag::Pre);
            match &pre.children[0] {
                ViewNode::Element(code) => {
                    assert_eq!(code.tag, ViewTag::Code);
                    assert_eq!(code.children, vec![ViewNode::Text(vec![run("x\ny\n")])]);
                }
                other => panic!("expected a code element, got {:?}", other),
            }
        }
        other => panic!("expected a pre element, got {:?}", other),
    }
}

#[test]
fn render_intercepts_registered_component() {
    let mut reg = Components::new();
    reg.add("Widget".to_string());
    let views = Mdx("<Widget id=\"a\" class=\"x y\">hi</Widget>", &reg).expect("renders");
    fn find_component(v: &ViewNode) -> Option<&leptos_mdx::view::ComponentCall> {
        match v {
            ViewNode::Component(c) => Some(c),
            ViewNode::Element(e) => e.children.iter().find_map(find_component),
            _ => None,
        }
    }
    let comp = views
        .iter()
        .find_map(find_component)
        .expect("a component invocation is produced");
    assert_eq!(comp.name, "Widget".to_string());
    assert_eq!(comp.props.id, Some("a".to_string()));
    assert_eq!(comp.props.classes, vec!["x".to_string(), "y".to_string()]);
}

#[test]
fn render_twice_yields_equal_trees() {
    let mut reg = Components::new();
    reg.add("Widget".to_string());
    let source = "---\ntitle: X\n---\n# Head\n\npara one\ntwo\n\n<Widget class=\"w\">in</Widget>";
    let a = Mdx(source, &reg).expect("first render");
    let b = Mdx(source, &reg).expect("second render");
    assert_eq!(a, b);
}

#[test]
fn render_of_markdown_structures() {
    let reg = Components::new();
    let views = Mdx("- one\n- two", &reg).expect("renders");
    match &views[0] {
        ViewNode::Element(ul) => {
            assert_eq!(ul.tag, ViewTag::Ul);
            let items: Vec<ViewTag> = ul
                .children
                .iter()
                .filter_map(|v| match v {
                    ViewNode::Element(e) => Some(e.tag),
                    _ => None,
                })
                .collect();
            assert_eq!(items, vec![ViewTag::Li, ViewTag::Li]);
        }
        other => panic!("expected a list, got {:?}", other),
    }
}
