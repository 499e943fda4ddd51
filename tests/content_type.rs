use lwebservr::content_type::calculate_content_type;

#[test]
fn calculate_content_type_test() {
    assert_eq!("text/html".to_owned(), calculate_content_type("index.html"));
    assert_eq!(
        "application/octet-stream".to_owned(),
        calculate_content_type("index.pdf")
    );
}

#[test]
fn each_known_extension_has_its_type() {
    assert_eq!(calculate_content_type("a.html"), "text/html");
    assert_eq!(calculate_content_type("logo.png"), "image/png");
    assert_eq!(calculate_content_type("notes.txt"), "text/plain");
    assert_eq!(calculate_content_type("app.js"), "text/javascript");
    assert_eq!(calculate_content_type("site.css"), "text/css");
}

#[test]
fn only_the_last_extension_counts() {
    assert_eq!(calculate_content_type("archive.html.gz"), "application/octet-stream");
    assert_eq!(calculate_content_type("page.txt.html"), "text/html");
    assert_eq!(calculate_content_type("dir.d/style.css"), "text/css");
}

#[test]
fn no_extension_is_octet_stream() {
    assert_eq!(calculate_content_type("README"), "application/octet-stream");
    assert_eq!(calculate_content_type("html"), "application/octet-stream");
    assert_eq!(calculate_content_type(""), "application/octet-stream");
    assert_eq!(calculate_content_type("index."), "application/octet-stream");
}

#[test]
fn extension_match_is_exact() {
    assert_eq!(calculate_content_type("a.HTML"), "application/octet-stream");
    assert_eq!(calculate_content_type("a.htm"), "application/octet-stream");
    assert_eq!(calculate_content_type("a.jsx"), "application/octet-stream");
    assert_eq!(calculate_content_type("ünï.txt"), "text/plain");
}
