use lwebservr::outcome::HttpResult;
use lwebservr::request::parse_request;
use lwebservr::resolve::{dispatch, handle_get, requested_file};
use lwebservr::response::decimal_text;
use lwebservr::take;

fn answer(request: &[u8], file: Option<(&str, &str)>) -> String {
    let req = parse_request(request).unwrap();
    let contents = match (req.file_to_read(), file) {
        (Some(name), Some((present, text))) if name == present => Some(text.to_string()),
        _ => None,
    };
    req.resolve(contents).to_response()
}

#[test]
fn serves_an_existing_file() {
    let r = answer(
        b"GET /index.html HTTP/1.1\r\n",
        Some(("index.html", "<h1>hi</h1>")),
    );
    assert_eq!(
        r,
        "HTTP/1.0 200\r\nContent-Type: text/html\r\nContent-Length: 11\r\n\r\n<h1>hi</h1>"
    );
}

#[test]
fn missing_file_is_not_found() {
    let r = answer(b"GET /missing.txt HTTP/1.1\r\n", None);
    assert_eq!(r, "HTTP/1.0 404 Not Found\r\n");
}

#[test]
fn post_is_not_allowed() {
    let r = answer(b"POST / HTTP/1.1\r\n", Some(("index.html", "<h1>hi</h1>")));
    assert_eq!(r, "HTTP/1.0 405 Method not allowed\r\n");
}

#[test]
fn root_without_index_is_not_found() {
    let r = answer(b"GET / HTTP/1.1\r\n", None);
    assert!(r.starts_with("HTTP/1.0 404"));
}

#[test]
fn root_serves_the_index() {
    let r = answer(b"GET / HTTP/1.1\r\n", Some(("index.html", "home")));
    assert_eq!(
        r,
        "HTTP/1.0 200\r\nContent-Type: text/html\r\nContent-Length: 4\r\n\r\nhome"
    );
}

#[test]
fn method_case_does_not_matter() {
    let r = answer(b"get /a.css HTTP/1.1\r\n", Some(("a.css", "p{}")));
    assert_eq!(
        r,
        "HTTP/1.0 200\r\nContent-Type: text/css\r\nContent-Length: 3\r\n\r\np{}"
    );
    let req = parse_request(b"gEt /x HTTP/1.1").unwrap();
    assert!(req.is_get());
    let req = parse_request(b"GETS /x HTTP/1.1").unwrap();
    assert!(!req.is_get());
    assert_eq!(req.file_to_read(), None);
}

#[test]
fn other_methods_are_refused_whatever_the_file() {
    for m in ["POST", "PUT", "DELETE", "HEAD", "get2"].iter() {
        let r = dispatch(m, "index.html", Some("x".to_string()));
        assert_eq!(r.status, 405);
        assert_eq!(r.msg, "Method not allowed");
        assert_eq!(r.body, "");
        assert_eq!(r.content_type, None);
    }
}

#[test]
fn content_length_counts_bytes() {
    let r = HttpResult::ok("text/plain", "héllo €".to_string()).to_response();
    assert_eq!(
        r,
        "HTTP/1.0 200\r\nContent-Type: text/plain\r\nContent-Length: 10\r\n\r\nhéllo €"
    );
}

#[test]
fn empty_file_is_served_empty() {
    let r = handle_get("empty.txt", Some(String::new()));
    assert_eq!(r.status, 200);
    assert_eq!(
        r.to_response(),
        "HTTP/1.0 200\r\nContent-Type: text/plain\r\nContent-Length: 0\r\n\r\n"
    );
}

#[test]
fn handle_get_outcomes() {
    let r = handle_get("", Some("x".to_string()));
    assert_eq!((r.status, r.msg, r.content_type), (200, "OK", Some("text/html")));
    assert_eq!(r.body, "x");
    let r = handle_get("img/logo.png", None);
    assert_eq!((r.status, r.msg, r.content_type), (404, "Not Found", None));
    assert_eq!(r.body, "");
}

#[test]
fn empty_path_reads_index() {
    assert_eq!(requested_file(""), "index.html");
    assert_eq!(requested_file("index.html"), "index.html");
    assert_eq!(requested_file("../up.txt"), "../up.txt");
    let a = handle_get("", Some("t".to_string()));
    let b = handle_get("index.html", Some("t".to_string()));
    assert_eq!((a.status, a.msg, a.body, a.content_type), (b.status, b.msg, b.body, b.content_type));
}

#[test]
fn constructors_and_non_ok_responses() {
    let r = HttpResult::not_found();
    assert_eq!(r.to_response(), "HTTP/1.0 404 Not Found\r\n");
    let r = HttpResult::method_not_allowed();
    assert_eq!(r.to_response(), "HTTP/1.0 405 Method not allowed\r\n");
    let r = HttpResult { status: 200, msg: "OK", body: "b".to_string(), content_type: None };
    assert_eq!(r.to_response(), "HTTP/1.0 200\r\nContent-Length: 1\r\n\r\nb");
}

#[test]
fn decimal_numbers() {
    assert_eq!(decimal_text(0), "0");
    assert_eq!(decimal_text(7), "7");
    assert_eq!(decimal_text(10), "10");
    assert_eq!(decimal_text(405), "405");
    assert_eq!(decimal_text(1234567890), "1234567890");
    take("unused".to_string());
}
