use edge_webview::edge_manual::strip_root;
use edge_webview::edge_manual::webview_get_content;
use edge_webview::edge_manual::Content;
use edge_webview::edge_manual::InternalData;
use edge_webview::edge_manual::WebView;
use include_dir::Dir;
use include_dir::DirEntry;
use include_dir::File;

#[test]
fn content_resolves_from_the_embedded_directory() {
    let entries = [
        DirEntry::File(File::new("index.html", b"<html>index</html>")),
        DirEntry::File(File::new("app.js", b"let a = 1;")),
    ];
    let internal = InternalData::new(Some(Dir::new("", &entries)));
    assert_eq!(webview_get_content(&internal, "/index.html"), Some(&b"<html>index</html>"[..]));
    assert_eq!(webview_get_content(&internal, "/app.js"), Some(&b"let a = 1;"[..]));
    assert_eq!(webview_get_content(&internal, "/missing.html"), None);
}

#[test]
fn content_without_a_leading_slash_resolves_too() {
    let entries = [DirEntry::File(File::new("index.html", b"index"))];
    let internal = InternalData::new(Some(Dir::new("", &entries)));
    assert_eq!(webview_get_content(&internal, "index.html"), Some(&b"index"[..]));
    assert_eq!(webview_get_content(&internal, "//index.html"), Some(&b"index"[..]));
    assert_eq!(webview_get_content(&internal, ""), None);
    assert_eq!(webview_get_content(&internal, "/"), None);
}

#[test]
fn content_in_a_subdirectory_resolves_by_its_full_path() {
    let scripts = [DirEntry::File(File::new("js/app.js", b"app"))];
    let entries = [
        DirEntry::File(File::new("index.html", b"index")),
        DirEntry::Dir(Dir::new("js", &scripts)),
    ];
    let internal = InternalData::new(Some(Dir::new("", &entries)));
    assert_eq!(webview_get_content(&internal, "/js/app.js"), Some(&b"app"[..]));
    assert_eq!(webview_get_content(&internal, "/app.js"), None);
}

#[test]
fn a_directory_is_not_content() {
    let scripts = [DirEntry::File(File::new("js/app.js", b"app"))];
    let entries = [DirEntry::Dir(Dir::new("js", &scripts))];
    let internal = InternalData::new(Some(Dir::new("", &entries)));
    assert_eq!(webview_get_content(&internal, "/js"), None);
}

#[test]
fn nothing_resolves_without_a_directory() {
    let internal = InternalData::new(None);
    assert_eq!(webview_get_content(&internal, "/index.html"), None);
}

#[test]
fn web_view_serves_the_directory_of_its_content() {
    let entries = [DirEntry::File(File::new("index.html", b"index"))];
    let dir = Dir::new("", &entries);
    let (mut view, _) = WebView::new("t", Content::Dir(dir, String::from("/index.html")), (1, 1), false)
        .unwrap_or_else(|e| panic!("{:?}", e));
    assert_eq!(webview_get_content(view.internal(), "/index.html"), None);
    assert!(view.window_created(0, 5, String::new()).is_ok());
    assert_eq!(webview_get_content(view.internal(), "/index.html"), Some(&b"index"[..]));
    assert_eq!(webview_get_content(view.internal(), "/missing.html"), None);
}

#[test]
fn leading_slashes_are_taken_off() {
    assert_eq!(strip_root("/index.html"), "index.html");
    assert_eq!(strip_root("index.html"), "index.html");
    assert_eq!(strip_root("///a/b"), "a/b");
    assert_eq!(strip_root("/"), "");
    assert_eq!(strip_root(""), "");
    assert_eq!(strip_root("/é/ü"), "é/ü");
}
