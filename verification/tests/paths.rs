use xtask::layout::{binding_root, include_root, stamp_path};
use xtask::paths::{join, starts_at_root};

#[test]
fn join_puts_a_separator_between() {
    assert_eq!(join("/home/dev/repo", "lib"), "/home/dev/repo/lib");
}

#[test]
fn join_adds_no_second_separator() {
    assert_eq!(join("/home/dev/repo/", "lib"), "/home/dev/repo/lib");
    assert_eq!(join("/", "lib"), "/lib");
}

#[test]
fn join_onto_nothing_is_the_name() {
    assert_eq!(join("", "lib"), "lib");
}

#[test]
fn join_with_an_absolute_name_replaces_the_base() {
    assert_eq!(join("/home/dev/repo", "/etc"), "/etc");
    assert_eq!(join("", "/"), "/");
}

#[test]
fn join_with_an_empty_name_ends_in_a_separator() {
    assert_eq!(join("/home/dev/repo", ""), "/home/dev/repo/");
    assert_eq!(join("/", ""), "/");
    assert_eq!(join("", ""), "");
}

#[test]
fn join_keeps_characters_outside_ascii() {
    assert_eq!(join("/home/zoë/dépôt", "lib"), "/home/zoë/dépôt/lib");
}

#[test]
fn only_a_leading_separator_makes_a_path_absolute() {
    assert!(starts_at_root("/"));
    assert!(starts_at_root("/home/dev"));
    assert!(!starts_at_root(""));
    assert!(!starts_at_root("home/dev"));
    assert!(!starts_at_root("./home"));
    assert!(!starts_at_root("é/"));
}

#[test]
fn binding_crate_lies_under_lib() {
    assert_eq!(binding_root("/home/dev/repo"), "/home/dev/repo/lib/wpilib-sys");
    assert_eq!(binding_root("/"), "/lib/wpilib-sys");
}

#[test]
fn headers_go_to_the_include_directory() {
    assert_eq!(
        include_root("/home/dev/repo/lib/wpilib-sys"),
        "/home/dev/repo/lib/wpilib-sys/include"
    );
}

#[test]
fn stamp_goes_to_the_sources_of_the_binding_crate() {
    assert_eq!(
        stamp_path("/home/dev/repo/lib/wpilib-sys"),
        "/home/dev/repo/lib/wpilib-sys/src/version.rs"
    );
}

#[test]
fn layout_extends_the_starting_directory() {
    let origins = ["/", "/repo", "/home/dev/some repo", "/a/b/c/d/e"];
    for origin in origins {
        let binding = binding_root(origin);
        let headers = include_root(&binding);
        let stamp = stamp_path(&binding);
        assert!(starts_at_root(&headers));
        assert!(starts_at_root(&stamp));
        assert!(headers.starts_with(origin));
        assert!(stamp.starts_with(origin));
        assert!(headers.starts_with(binding.as_str()));
        assert!(stamp.starts_with(binding.as_str()));
    }
}
