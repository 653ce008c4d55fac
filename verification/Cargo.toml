[package]
name = "leptos_mdx"
version = "0.1.0"
edition = "2021"
publish = false

[dependencies]
frontmatter = "*"
pulldown-cmark = "*"
tl = "*"
leptos = { version = "0.5", default-features = false }
