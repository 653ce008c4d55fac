use leptos_mdx::dom::Attr;
use leptos_mdx::dom::DomElement;
use leptos_mdx::dom::DomNode;
use leptos_mdx::registry::Components;
use leptos_mdx::tags::ViewTag;
use leptos_mdx::transform::process_element;
use leptos_mdx::transform::transform_nodes;
use leptos_mdx::view::Inline;
use leptos_mdx::view::ViewNode;

fn attr(name: &str, value: Option<&str>) -> Attr {
    Attr { name: name.to_string(), value: value.map(|v| v.to_string()) }
}

fn el(name: &str, attrs: Vec<Attr>, children: Vec<DomNode>) -> DomNode {
    DomNode::Element(DomElement { name: name.to_string(), attrs, children })
}

fn text(s: &str) -> DomNode {
    DomNode::Text(s.to_string())
}

fn run(s: &str) -> Inline {
    Inline::Run(s.to_string())
}

#[test]
fn comment_renders_empty() {
    let reg = Components::new();
    assert_eq!(process_element(&DomNode::Comment, &reg, true), ViewNode::Empty);
}

#[test]
fn undecodable_text_renders_empty() {
    let reg = Components::new();
    assert_eq!(process_element(&DomNode::UndecodableText, &reg, true), ViewNode::Empty);
}

#[test]
fn text_formats_only_when_active() {
    let reg = Components::new();
    let on = process_element(&text("a\nb"), &reg, true);
    assert_eq!(on, ViewNode::Text(vec![run("a"), Inline::Break, run("b")]));
    let off = process_element(&text("a\nb"), &reg, false);
    assert_eq!(off, ViewNode::Text(vec![run("a\nb")]));
}

#[test]
fn code_suppresses_newline_formatting_but_sibling_p_converts() {
    let reg = Components::new();
    let code = process_element(&el("code", vec![], vec![text("x\ny")]), &reg, true);
    match code {
        ViewNode::Element(e) => {
            assert_eq!(e.tag, ViewTag::Code);
            assert_eq!(e.children, vec![ViewNode::Text(vec![run("x\ny")])]);
        }
        other => panic!("expected an element, got {:?}", other),
    }
    let p = process_element(&el("p", vec![], vec![text("x\ny")]), &reg, true);
    match p {
        ViewNode::Element(e) => {
            assert_eq!(e.tag, ViewTag::P);
            assert_eq!(e.children, vec![ViewNode::Text(vec![run("x"), Inline::Break, run("y")])]);
        }
        other => panic!("expected an element, got {:?}", other),
    }
}

#[test]
fn pre_suppresses_newline_formatting_for_descendants() {
    let reg = Components::new();
    let pre = process_element(
        &el("pre", vec![], vec![el("code", vec![], vec![text("x\ny\n")])]),
        &reg,
        true,
    );
    match pre {
        ViewNode::Element(e) => {
            assert_eq!(e.tag, ViewTag::Pre);
            match &e.children[0] {
                ViewNode::Element(inner) => {
                    assert_eq!(inner.children, vec![ViewNode::Text(vec![run("x\ny\n")])]);
                }
                other => panic!("expected an element, got {:?}", other),
            }
        }
        other => panic!("expected an element, got {:?}", other),
    }
}

#[test]
fn registered_component_receives_props() {
    let mut reg = Components::new();
    reg.add("Widget".to_string());
    let node = el(
        "Widget",
        vec![attr("id", Some("a")), attr("class", Some("x y"))],
        vec![el("span", vec![], vec![text("hi")])],
    );
    let v = process_element(&node, &reg, true);
    match v {
        ViewNode::Component(c) => {
            assert_eq!(c.name, "Widget".to_string());
            assert_eq!(c.props.id, Some("a".to_string()));
            assert_eq!(c.props.classes, vec!["x".to_string(), "y".to_string()]);
            assert_eq!(
                c.props.attributes,
                vec![attr("id", Some("a")), attr("class", Some("x y"))]
            );
            let reg2 = Components::new();
            let builtin_child =
                process_element(&el("span", vec![], vec![text("hi")]), &reg2, true);
            assert_eq!(c.props.children, vec![builtin_child]);
        }
        other => panic!("expected a component, got {:?}", other),
    }
}

#[test]
fn registration_overrides_builtin_mapping() {
    let mut reg = Components::new();
    reg.add("div".to_string());
    let v = process_element(&el("div", vec![], vec![]), &reg, true);
    assert!(matches!(v, ViewNode::Component(_)));
}

#[test]
fn unknown_tag_renders_empty_and_siblings_survive() {
    let reg = Components::new();
    let roots = vec![
        el("foo-bar", vec![], vec![text("text")]),
        el("p", vec![], vec![text("still here")]),
    ];
    let out = transform_nodes(&roots, &reg, true);
    assert_eq!(out.len(), 2);
    assert_eq!(out[0], ViewNode::Empty);
    match &out[1] {
        ViewNode::Element(e) => {
            assert_eq!(e.tag, ViewTag::P);
            assert_eq!(e.children, vec![ViewNode::Text(vec![run("still here")])]);
        }
        other => panic!("expected an element, got {:?}", other),
    }
}

#[test]
fn root_order_is_preserved() {
    let reg = Components::new();
    let roots = vec![text("one"), text("two"), text("three")];
    let out = transform_nodes(&roots, &reg, true);
    assert_eq!(
        out,
        vec![
            ViewNode::Text(vec![run("one")]),
            ViewNode::Text(vec![run("two")]),
            ViewNode::Text(vec![run("three")]),
        ]
    );
}

#[test]
fn builtin_element_attribute_extraction() {
    let reg = Components::new();
    let node = el(
        "div",
        vec![
            attr("id", Some("main-block")),
            attr("class", Some("x  y")),
            attr("hidden", None),
            attr("data-x", Some("1")),
        ],
        vec![],
    );
    let v = process_element(&node, &reg, true);
    match v {
        ViewNode::Element(e) => {
            assert_eq!(e.tag, ViewTag::Div);
            assert_eq!(e.id, Some("main-block".to_string()));
            assert_eq!(e.class, Some("x y".to_string()));
            let names: Vec<&str> = e.attrs.iter().map(|a| a.name.as_str()).collect();
            assert!(names.contains(&"id"));
            assert!(names.contains(&"class"));
            assert!(names.contains(&"data-x"));
            assert!(!names.contains(&"hidden"));
        }
        other => panic!("expected an element, got {:?}", other),
    }
}

#[test]
fn later_attribute_occurrence_wins() {
    let reg = Components::new();
    let node = el("div", vec![attr("data-x", Some("1")), attr("data-x", Some("2"))], vec![]);
    let v = process_element(&node, &reg, true);
    match v {
        ViewNode::Element(e) => {
            assert_eq!(e.attrs.len(), 1);
            assert_eq!(e.attrs[0].name, "data-x".to_string());
            assert_eq!(e.attrs[0].value, "2".to_string());
        }
        other => panic!("expected an element, got {:?}", other),
    }
}

#[test]
fn valueless_class_and_missing_id_yield_nothing() {
    let reg = Components::new();
    let node = el("span", vec![attr("class", None)], vec![]);
    let v = process_element(&node, &reg, true);
    match v {
        ViewNode::Element(e) => {
            assert_eq!(e.id, None);
            assert_eq!(e.class, None);
            assert_eq!(e.attrs.len(), 0);
        }
        other => panic!("expected an element, got {:?}", other),
    }
}

#[test]
fn class_tokens_keep_duplicates_and_order() {
    let mut reg = Components::new();
    reg.add("Widget".to_string());
    let node = el("Widget", vec![attr("class", Some("b a b"))], vec![]);
    let v = process_element(&node, &reg, true);
    match v {
        ViewNode::Component(c) => {
            assert_eq!(c.props.classes, vec!["b".to_string(), "a".to_string(), "b".to_string()]);
        }
        other => panic!("expected a component, got {:?}", other),
    }
}

#[test]
fn registry_lookup_is_exact_and_case_sensitive() {
    let mut reg = Components::new();
    reg.add("Widget".to_string());
    reg.add("Widget".to_string());
    assert!(reg.is_registered("Widget"));
    assert!(!reg.is_registered("widget"));
    assert!(!reg.is_registered("Widge"));
}
