use std::path::Path;

use chimie::static_assets::{content_type, served_file};

/// The content type the web framework gives the path, by its extension as
/// `Path::extension` reads it.
fn expected(p: &str) -> String {
    let ext = Path::new(p)
        .extension()
        .map_or("".to_string(), |s| s.to_string_lossy().into_owned());
    actix_files::file_extension_to_mime(&ext).to_string()
}

#[test]
fn served_file_falls_back_to_index() {
    assert_eq!(served_file("app/main.js", true), "app/main.js");
    assert_eq!(served_file("missing.png", false), "index.html");
    assert_eq!(served_file("", false), "index.html");
}

#[test]
fn content_type_by_extension() {
    assert_eq!(content_type("index.html"), "text/html");
    assert_eq!(content_type("img/logo.png"), "image/png");
    assert_eq!(content_type("style.CSS"), "text/css");
    assert_eq!(content_type("noext"), "application/octet-stream");
    assert_eq!(content_type(".hidden"), "application/octet-stream");
    assert_eq!(content_type(""), "application/octet-stream");
}

#[test]
fn extension_read_as_path_does() {
    for p in [
        "index.html",
        "a/b/c.js",
        "a/b.tar.gz",
        ".bashrc",
        "dir/.env",
        "dir/",
        "a.b/c",
        "x/..",
        "..",
        "x.png/.",
        "x.svg//",
        "./y.json",
        "a/b.",
        "a/.b.css",
        "a//b.woff2",
        "",
        "/",
        ".",
    ] {
        assert_eq!(content_type(p), expected(p), "path {p:?}");
    }
}
