use terafirma::document::Field;
use terafirma::error::ConfigError;
use terafirma::paths::{absolute, create_path, get_page_path, join, strip_root};

#[test]
fn join_appends_relative_path() {
    assert_eq!(join("/site", "output"), "/site/output");
    assert_eq!(join("/site", "img/emoticon.png"), "/site/img/emoticon.png");
}

#[test]
fn join_keeps_single_separator() {
    assert_eq!(join("/site/", "output"), "/site/output");
    assert_eq!(join("/", "output"), "/output");
}

#[test]
fn join_with_empty_root_is_the_path() {
    assert_eq!(join("", "output"), "output");
}

#[test]
fn join_with_empty_path_ends_in_separator() {
    assert_eq!(join("/site", ""), "/site/");
}

#[test]
fn join_replaces_root_with_absolute_path() {
    assert_eq!(join("/site", "/var/www"), "/var/www");
}

#[test]
fn join_agrees_with_std_paths() {
    let roots = ["", "/", "/site", "/site/", "rel", "rel/", "/a/b"];
    let paths = ["", "output", "/abs", "a/b.html", "/", "x/"];
    for root in roots {
        for p in paths {
            let expected = std::path::Path::new(root).join(p);
            assert_eq!(join(root, p), expected.to_str().unwrap());
        }
    }
}

#[test]
fn absolute_paths_start_at_the_root() {
    assert!(absolute("/"));
    assert!(absolute("/var/www"));
    assert!(!absolute(""));
    assert!(!absolute("var/www"));
    assert!(!absolute("./www"));
}

#[test]
fn create_path_defaults_when_setting_is_absent() {
    assert_eq!(create_path("/site", Field::Absent, "output"), "/site/output");
    assert_eq!(create_path("/site", Field::Absent, "templates"), "/site/templates");
}

#[test]
fn create_path_defaults_when_setting_is_no_string() {
    assert_eq!(create_path("/site", Field::Other, "static"), "/site/static");
}

#[test]
fn create_path_joins_relative_override() {
    assert_eq!(create_path("/site", Field::Text("target"), "output"), "/site/target");
    assert_eq!(create_path("/site", Field::Text("a/b"), "output"), "/site/a/b");
}

#[test]
fn create_path_keeps_absolute_override() {
    assert_eq!(create_path("/site", Field::Text("/var/www"), "output"), "/var/www");
}

#[test]
fn strip_root_removes_leading_slash() {
    assert_eq!(strip_root("/index.html").unwrap(), "index.html");
    assert_eq!(strip_root("/err/404.html").unwrap(), "err/404.html");
    assert_eq!(strip_root("//x").unwrap(), "/x");
}

#[test]
fn strip_root_counts_characters_not_bytes() {
    assert_eq!(strip_root("/caf\u{e9}/\u{4e2d}.html").unwrap(), "caf\u{e9}/\u{4e2d}.html");
}

#[test]
fn strip_root_rejects_empty_path() {
    assert!(matches!(strip_root(""), Err(ConfigError::EmptyPath)));
}

#[test]
fn strip_root_rejects_empty_output_path() {
    assert!(matches!(strip_root("/"), Err(ConfigError::EmptyPath)));
    assert!(matches!(get_page_path(Field::Text("/")), Err(ConfigError::EmptyPath)));
    assert!(get_page_path(Field::Text("/a")).is_ok());
}

#[test]
fn strip_root_rejects_missing_slash() {
    assert!(matches!(strip_root("index.html"), Err(ConfigError::PathWithoutSlash)));
    assert!(matches!(strip_root("./index.html"), Err(ConfigError::PathWithoutSlash)));
}

#[test]
fn page_path_of_text_field() {
    assert_eq!(get_page_path(Field::Text("/post-1.html")).unwrap(), "post-1.html");
}

#[test]
fn page_path_missing() {
    assert!(matches!(get_page_path(Field::Absent), Err(ConfigError::MissingPath)));
}

#[test]
fn page_path_not_a_string() {
    assert!(matches!(get_page_path(Field::Other), Err(ConfigError::PathNotText)));
}

#[test]
fn page_path_empty_or_without_slash() {
    assert!(matches!(get_page_path(Field::Text("")), Err(ConfigError::EmptyPath)));
    assert!(matches!(get_page_path(Field::Text("a")), Err(ConfigError::PathWithoutSlash)));
}
