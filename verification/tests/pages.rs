use terafirma::context::merge;
use terafirma::error::BuildError;
use terafirma::page::{PageBuilder, REDIRECT_TEMPLATE};

fn render(
    p: &PageBuilder,
    engine: &mut tera::Tera,
    global: &tera::Context,
    contents: &str,
) -> Result<String, BuildError> {
    let input = p.render_input(global, contents)?;
    PageBuilder::rendered(engine.render_str(&input.template, &input.context))
}

fn context_of(pairs: &[(&str, i64)]) -> tera::Context {
    let mut c = tera::Context::new();
    for (k, v) in pairs {
        c.insert(*k, v);
    }
    c
}

#[test]
fn constructors_keep_their_arguments() {
    match PageBuilder::redirect("github.html", "https://example.com") {
        PageBuilder::Redirect { path, url } => {
            assert_eq!(path, "github.html");
            assert_eq!(url, "https://example.com");
        }
        _ => panic!("not a redirect"),
    }
    match PageBuilder::no_body("a.html", context_of(&[("a", 1)])) {
        PageBuilder::WithoutBody { path, context } => {
            assert_eq!(path, "a.html");
            assert_eq!(context, context_of(&[("a", 1)]));
        }
        _ => panic!("not a page without body"),
    }
    match PageBuilder::text_body("b.html", context_of(&[("b", 2)]), "<p>{{ b }}</p>") {
        PageBuilder::TextBody { path, context, body } => {
            assert_eq!(path, "b.html");
            assert_eq!(context, context_of(&[("b", 2)]));
            assert_eq!(body, "<p>{{ b }}</p>");
        }
        _ => panic!("not a text body"),
    }
    match PageBuilder::file_body("c.html", "c.html") {
        PageBuilder::FileBody { path, context, body } => {
            assert_eq!(path, "c.html");
            assert_eq!(context, tera::Context::new());
            assert_eq!(body, "c.html");
        }
        _ => panic!("not a file body"),
    }
}

#[test]
fn path_of_every_variant() {
    assert_eq!(PageBuilder::redirect("r.html", "u").path(), "r.html");
    assert_eq!(PageBuilder::no_body("n.html", tera::Context::new()).path(), "n.html");
    assert_eq!(PageBuilder::text_body("t.html", tera::Context::new(), "x").path(), "t.html");
    assert_eq!(PageBuilder::file_body("d/f.html", "d/f.html").path(), "d/f.html");
}

#[test]
fn is_at_compares_the_path() {
    let p = PageBuilder::file_body("a/b.html", "a/b.html");
    assert!(p.is_at(&String::from("a/b.html")));
    assert!(!p.is_at(&String::from("a/b.htm")));
    assert!(!p.is_at(&String::from("")));
}

#[test]
fn file_supplies_body_of_declared_page() {
    let mut p = PageBuilder::no_body("post-1.html", context_of(&[("n", 1)]));
    assert!(p.add_file_body("post-1.html").is_ok());
    match p {
        PageBuilder::FileBody { path, context, body } => {
            assert_eq!(path, "post-1.html");
            assert_eq!(context, context_of(&[("n", 1)]));
            assert_eq!(body, "post-1.html");
        }
        _ => panic!("not a file body"),
    }
}

#[test]
fn file_conflicts_with_redirect() {
    let mut p = PageBuilder::redirect("github.html", "https://example.com");
    match p.add_file_body("github.html") {
        Err(BuildError::RedirectConflict(path)) => assert_eq!(path, "github.html"),
        _ => panic!("no redirect conflict"),
    }
    assert!(matches!(p, PageBuilder::Redirect { .. }));
}

#[test]
fn file_conflicts_with_inline_body() {
    let mut p = PageBuilder::text_body("index.html", tera::Context::new(), "HOME");
    match p.add_file_body("index.html") {
        Err(BuildError::BodyConflict(path)) => assert_eq!(path, "index.html"),
        _ => panic!("no body conflict"),
    }
    match p {
        PageBuilder::TextBody { body, .. } => assert_eq!(body, "HOME"),
        _ => panic!("entry changed"),
    }
}

#[test]
fn file_conflicts_with_earlier_file() {
    let mut p = PageBuilder::file_body("home.html", "home.html");
    match p.add_file_body("home.html") {
        Err(BuildError::FileConflict(path)) => assert_eq!(path, "home.html"),
        _ => panic!("no file conflict"),
    }
}

#[test]
fn output_file_is_under_the_output_directory() {
    let p = PageBuilder::text_body("index.html", tera::Context::new(), "HOME");
    assert_eq!(p.output_file("/site/output"), "/site/output/index.html");
    let q = PageBuilder::file_body("err/404.html", "err/404.html");
    assert_eq!(q.output_file("/site/output"), "/site/output/err/404.html");
}

#[test]
fn body_file_is_under_the_page_directory() {
    let p = PageBuilder::file_body("blog/post-1.html", "blog/post-1.html");
    assert_eq!(p.body_file("/site/pages"), Some(String::from("/site/pages/blog/post-1.html")));
    assert_eq!(PageBuilder::redirect("r.html", "u").body_file("/site/pages"), None);
    assert_eq!(PageBuilder::no_body("n.html", tera::Context::new()).body_file("/site/pages"), None);
    assert_eq!(PageBuilder::text_body("t.html", tera::Context::new(), "x").body_file("/site/pages"), None);
}

#[test]
fn merge_lets_the_overlay_win() {
    let base = context_of(&[("a", 1), ("c", 5)]);
    let overlay = context_of(&[("a", 2), ("b", 3)]);
    let merged = merge(&base, &overlay);
    assert_eq!(merged, context_of(&[("a", 2), ("b", 3), ("c", 5)]));
    assert_eq!(base, context_of(&[("a", 1), ("c", 5)]));
    assert_eq!(overlay, context_of(&[("a", 2), ("b", 3)]));
}

#[test]
fn merge_with_empty_contexts() {
    let some = context_of(&[("a", 1)]);
    assert_eq!(merge(&some, &tera::Context::new()), some);
    assert_eq!(merge(&tera::Context::new(), &some), some);
    assert_eq!(merge(&tera::Context::new(), &tera::Context::new()), tera::Context::new());
}

#[test]
fn render_input_of_redirect_binds_only_url() {
    let mut global = context_of(&[("a", 1)]);
    global.insert("url", "https://elsewhere.example");
    let p = PageBuilder::redirect("github.html", "https://example.com");
    let input = p.render_input(&global, "").ok().unwrap();
    assert_eq!(input.template, REDIRECT_TEMPLATE);
    let mut expected = tera::Context::new();
    expected.insert("url", "https://example.com");
    assert_eq!(input.context, expected);
}

#[test]
fn render_input_of_text_body_merges_contexts() {
    let global = context_of(&[("a", 1)]);
    let p = PageBuilder::text_body("p.html", context_of(&[("a", 2), ("b", 3)]), "{{ a }}{{ b }}");
    let input = p.render_input(&global, "ignored").ok().unwrap();
    assert_eq!(input.template, "{{ a }}{{ b }}");
    assert_eq!(input.context, context_of(&[("a", 2), ("b", 3)]));
}

#[test]
fn render_input_of_file_body_takes_the_file_contents() {
    let global = context_of(&[("a", 1)]);
    let mut p = PageBuilder::no_body("p.html", context_of(&[("b", 3)]));
    p.add_file_body("p.html").ok().unwrap();
    let input = p.render_input(&global, "<p>{{ a }}-{{ b }}</p>").ok().unwrap();
    assert_eq!(input.template, "<p>{{ a }}-{{ b }}</p>");
    assert_eq!(input.context, context_of(&[("a", 1), ("b", 3)]));
}

#[test]
fn render_input_of_page_without_body_is_an_error() {
    let p = PageBuilder::no_body("lonely.html", tera::Context::new());
    match p.render_input(&tera::Context::new(), "") {
        Err(BuildError::MissingBody(path)) => assert_eq!(path, "lonely.html"),
        _ => panic!("no missing body"),
    }
}

#[test]
fn rendered_keeps_text_and_wraps_errors() {
    assert_eq!(PageBuilder::rendered(Ok(String::from("text"))).ok().unwrap(), "text");
    let failure = tera::Tera::default().render("absent", &tera::Context::new()).unwrap_err();
    assert!(matches!(PageBuilder::rendered(Err(failure)), Err(BuildError::Template(_))));
}

#[test]
fn context_shadowing() {
    let mut engine = tera::Tera::default();
    let global = context_of(&[("a", 1)]);
    let p = PageBuilder::text_body("p.html", context_of(&[("a", 2), ("b", 3)]), "a = {{ a }}, b = {{ b }}");
    assert_eq!(render(&p, &mut engine, &global, "").ok().unwrap(), "a = 2, b = 3");
    assert_eq!(global, context_of(&[("a", 1)]));
}

#[test]
fn global_context_passes_through() {
    let mut engine = tera::Tera::default();
    let global = context_of(&[("a", 1), ("c", 7)]);
    let p = PageBuilder::text_body("p.html", context_of(&[("b", 3)]), "{{ a }}{{ b }}{{ c }}");
    assert_eq!(render(&p, &mut engine, &global, "").ok().unwrap(), "137");
}

#[test]
fn redirect_isolation() {
    let mut engine = tera::Tera::default();
    let mut global = tera::Context::new();
    global.insert("url", "https://elsewhere.example");
    global.insert("title", "Home");
    let p = PageBuilder::redirect("github.html", "https://example.com");
    let text = render(&p, &mut engine, &global, "").ok().unwrap();
    assert!(!text.contains("elsewhere"));
    assert!(text.contains("https://example.com"));
}

#[test]
fn redirect_scenario() {
    let mut engine = tera::Tera::default();
    let p = PageBuilder::redirect("github.html", "https://example.com");
    let text = render(&p, &mut engine, &tera::Context::new(), "").ok().unwrap();
    assert!(text.contains("<meta http-equiv='refresh' content='0; url=\"https://example.com\"'/>"));
    assert!(text.contains("<a href='https://example.com'>https://example.com</a>"));
    let expected = "<!DOCTYPE html><html>
	<head><meta http-equiv='refresh' content='0; url=\"https://example.com\"'/></head>
	<body><p><a href='https://example.com'>https://example.com</a></p></body>
</html>";
    assert_eq!(text, expected);
}

#[test]
fn file_body_scenario() {
    let mut engine = tera::Tera::default();
    let mut global = tera::Context::new();
    global.insert("title", "Home");
    let p = PageBuilder::file_body("home.html", "home.html");
    let outcome = render(&p, &mut engine, &global, "<h1>{{ title }}</h1>");
    let page = p.build("/site/output", outcome).ok().unwrap();
    assert_eq!(page.file, "/site/output/home.html");
    assert_eq!(page.text, "<h1>Home</h1>");
}

#[test]
fn render_without_body_fails_before_the_engine() {
    let mut engine = tera::Tera::default();
    let p = PageBuilder::no_body("lonely.html", tera::Context::new());
    match render(&p, &mut engine, &tera::Context::new(), "") {
        Err(BuildError::MissingBody(path)) => assert_eq!(path, "lonely.html"),
        _ => panic!("no missing body"),
    }
    let outcome = render(&p, &mut engine, &tera::Context::new(), "");
    match p.build("/out", outcome) {
        Err(BuildError::MissingBody(path)) => assert_eq!(path, "lonely.html"),
        _ => panic!("no missing body"),
    }
}

#[test]
fn render_reports_template_errors() {
    let mut engine = tera::Tera::default();
    let p = PageBuilder::text_body("bad.html", tera::Context::new(), "{{ unclosed");
    assert!(matches!(render(&p, &mut engine, &tera::Context::new(), ""), Err(BuildError::Template(_))));
    let q = PageBuilder::text_body("bad.html", tera::Context::new(), "{{ undefined_variable }}");
    assert!(matches!(render(&q, &mut engine, &tera::Context::new(), ""), Err(BuildError::Template(_))));
}

#[test]
fn render_uses_templates_of_the_engine() {
    let mut engine = tera::Tera::default();
    engine.add_raw_template("base.html", "<body>{% block content %}{% endblock content %}</body>").unwrap();
    let p = PageBuilder::file_body("post.html", "post.html");
    let text = render(
        &p,
        &mut engine,
        &tera::Context::new(),
        "{% extends \"base.html\" %}{% block content %}Hello world!{% endblock content %}",
    )
    .ok()
    .unwrap();
    assert_eq!(text, "<body>Hello world!</body>");
}

#[test]
fn build_places_the_text_as_it_is() {
    let p = PageBuilder::text_body("err/404.html", tera::Context::new(), "404 : not found\n");
    let page = p.build("/site/output", Ok(String::from("404 : not found\n"))).ok().unwrap();
    assert_eq!(page.file, "/site/output/err/404.html");
    assert_eq!(page.text, "404 : not found\n");
    let empty = p.build("/site/output", Ok(String::new())).ok().unwrap();
    assert_eq!(empty.text, "");
}

#[test]
fn build_hands_errors_on_unchanged() {
    let p = PageBuilder::text_body("bad.html", tera::Context::new(), "{{ unclosed");
    let failure = tera::Tera::default().render("absent", &tera::Context::new()).unwrap_err();
    let text = failure.to_string();
    match p.build("/site/output", PageBuilder::rendered(Err(failure))) {
        Err(BuildError::Template(e)) => assert_eq!(e.to_string(), text),
        _ => panic!("no template error"),
    }
    match p.build("/site/output", Err(BuildError::MissingBody(String::from("x.html")))) {
        Err(BuildError::MissingBody(path)) => assert_eq!(path, "x.html"),
        _ => panic!("no missing body"),
    }
    match p.build("/site/output", Err(BuildError::FileConflict(String::from("y.html")))) {
        Err(BuildError::FileConflict(path)) => assert_eq!(path, "y.html"),
        _ => panic!("error changed"),
    }
}

#[test]
fn redirect_is_built_with_its_fallback_link() {
    let mut engine = tera::Tera::default();
    let p = PageBuilder::redirect("github.html", "https://example.com");
    let outcome = render(&p, &mut engine, &tera::Context::new(), "");
    let page = p.build("/site/output", outcome).ok().unwrap();
    assert_eq!(page.file, "/site/output/github.html");
    assert!(page.text.contains("<a href='https://example.com'>https://example.com</a>"));
}
