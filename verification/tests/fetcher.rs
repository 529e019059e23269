use web_crawler::common::error::Error;
use web_crawler::crawler::address::Address;
use web_crawler::crawler::fetcher::has_extension;
use web_crawler::crawler::fetcher::Fetcher;
use web_crawler::crawler::fetcher::Transfer;

fn addr(s: &str) -> Address {
    Address::parse(s).unwrap()
}

fn transfer(status: u16, content_type: Option<&str>, body: &str) -> Result<Transfer, String> {
    Ok(Transfer {
        status_code: status,
        content_type: content_type.map(|s| s.to_string()),
        headers: vec![("server".to_string(), "test".to_string())],
        body: body.to_string(),
    })
}

fn fetcher() -> Fetcher {
    Fetcher::new("TestBot/1.0".to_string(), 30, 1024)
}

#[test]
fn test_should_fetch() {
    assert!(Fetcher::should_fetch(&Address::parse("https://example.com").unwrap()));
    assert!(Fetcher::should_fetch(&Address::parse("http://example.com/page.html").unwrap()));
    assert!(!Fetcher::should_fetch(&Address::parse("https://example.com/image.jpg").unwrap()));
    assert!(!Fetcher::should_fetch(&Address::parse("ftp://example.com").unwrap()));
}

#[test]
fn should_fetch_looks_at_the_last_segment_in_any_case() {
    assert!(!Fetcher::should_fetch(&addr("https://example.com/a/IMAGE.JPG")));
    assert!(!Fetcher::should_fetch(&addr("https://example.com/a/b.Json")));
    assert!(!Fetcher::should_fetch(&addr("https://example.com/archive.tar.gz")));
    assert!(!Fetcher::should_fetch(&addr("https://example.com/style.css?v=3")));
    assert!(!Fetcher::should_fetch(&addr("https://example.com/.js")));
    assert!(Fetcher::should_fetch(&addr("https://example.com/image.jpg/")));
    assert!(Fetcher::should_fetch(&addr("https://example.com/image.jpg/view")));
    assert!(Fetcher::should_fetch(&addr("https://example.com/page?file=x.pdf")));
    assert!(Fetcher::should_fetch(&addr("https://example.com/jpg")));
    assert!(Fetcher::should_fetch(&addr("https://example.com/a.jpgx")));
    assert!(!Fetcher::should_fetch(&addr("mailto:someone@example.com")));
    assert!(!Fetcher::should_fetch(&addr("file:///tmp/page.html")));
}

#[test]
fn should_fetch_skips_each_listed_extension() {
    for ext in [
        ".jpg", ".jpeg", ".png", ".gif", ".webp", ".svg", ".pdf", ".doc", ".docx", ".xls", ".xlsx",
        ".zip", ".rar", ".tar", ".gz", ".mp3", ".mp4", ".avi", ".mov", ".css", ".js", ".json", ".xml",
    ] {
        let url = format!("https://example.com/file{}", ext);
        assert!(!Fetcher::should_fetch(&addr(&url)), "{}", url);
    }
    for ext in [".html", ".htm", ".php", ".txt", ".md", ""] {
        let url = format!("https://example.com/file{}", ext);
        assert!(Fetcher::should_fetch(&addr(&url)), "{}", url);
    }
}

#[test]
fn has_extension_needs_a_segment() {
    assert!(has_extension(&addr("https://example.com/a.PNG"), &[".png"]));
    assert!(!has_extension(&addr("https://example.com/a.png"), &[".jpg"]));
    assert!(!has_extension(&addr("https://example.com/a.png"), &[]));
    assert!(!has_extension(&addr("data:image/png,a.png"), &[".png"]));
}

#[test]
fn new_keeps_the_settings() {
    let f = fetcher();
    assert_eq!(f.get_user_agent(), "TestBot/1.0");
    assert_eq!(f.get_timeout_seconds(), 30);
    assert_eq!(f.get_max_size(), 1024);
}

#[test]
fn request_target_is_the_address_text() {
    let f = fetcher();
    let url = addr("https://example.com/a?b=c");
    assert_eq!(f.request_target(&url).unwrap(), "https://example.com/a?b=c");
    match f.request_target(&addr("ftp://example.com/a")) {
        Err(Error::HttpError(m)) => assert_eq!(m, "Unsupported URL scheme: ftp"),
        other => panic!("{:?}", other),
    }
}

#[test]
fn fetch_accepts_a_page() {
    let f = fetcher();
    let url = addr("https://example.com/a");
    let r = f.fetch(&url, transfer(200, Some("text/html; charset=utf-8"), "<html></html>")).unwrap();
    assert_eq!(r.url.as_str(), "https://example.com/a");
    assert_eq!(r.status_code, 200);
    assert_eq!(r.content_type, Some("text/html; charset=utf-8".to_string()));
    assert_eq!(r.body, "<html></html>");
    assert_eq!(r.headers, vec![("server".to_string(), "test".to_string())]);
}

#[test]
fn fetch_accepts_plain_text_and_a_missing_content_type() {
    let f = fetcher();
    let url = addr("http://example.com/robots.txt");
    assert!(f.fetch(&url, transfer(200, Some("text/plain"), "x")).is_ok());
    assert!(f.fetch(&url, transfer(204, None, "")).is_ok());
    assert!(f.fetch(&url, transfer(299, None, "")).is_ok());
}

#[test]
fn fetch_rejects_a_status_outside_2xx() {
    let f = fetcher();
    let url = addr("https://example.com/a");
    for (status, text) in [(404u16, "HTTP 404 for https://example.com/a"), (199, "HTTP 199 for https://example.com/a"), (300, "HTTP 300 for https://example.com/a"), (0, "HTTP 0 for https://example.com/a"), (65535, "HTTP 65535 for https://example.com/a")] {
        match f.fetch(&url, transfer(status, Some("text/html"), "x")) {
            Err(Error::HttpError(m)) => assert_eq!(m, text),
            other => panic!("{:?}", other),
        }
    }
}

#[test]
fn fetch_rejects_other_content_types() {
    let f = fetcher();
    let url = addr("https://example.com/a");
    match f.fetch(&url, transfer(200, Some("application/json"), "{}")) {
        Err(Error::InvalidResponse(m)) => assert_eq!(m, "Non-HTML content type: application/json"),
        other => panic!("{:?}", other),
    }
    match f.fetch(&url, transfer(200, Some("TEXT/HTML"), "x")) {
        Err(Error::InvalidResponse(m)) => assert_eq!(m, "Non-HTML content type: TEXT/HTML"),
        other => panic!("{:?}", other),
    }
    match f.fetch(&url, transfer(200, Some(""), "x")) {
        Err(Error::InvalidResponse(m)) => assert_eq!(m, "Non-HTML content type: "),
        other => panic!("{:?}", other),
    }
}

#[test]
fn fetch_checks_the_status_before_the_content_type() {
    let f = fetcher();
    let url = addr("https://example.com/a");
    assert!(matches!(f.fetch(&url, transfer(500, Some("image/png"), "")), Err(Error::HttpError(_))));
}

#[test]
fn fetch_hands_on_a_transport_error() {
    let f = fetcher();
    let url = addr("https://example.com/a");
    match f.fetch(&url, Err("connection refused".to_string())) {
        Err(Error::HttpError(m)) => assert_eq!(m, "connection refused"),
        other => panic!("{:?}", other),
    }
}

#[test]
fn fetch_rejects_other_schemes_first() {
    let f = fetcher();
    let url = addr("ftp://example.com/a");
    match f.fetch(&url, transfer(200, Some("text/html"), "x")) {
        Err(Error::HttpError(m)) => assert_eq!(m, "Unsupported URL scheme: ftp"),
        other => panic!("{:?}", other),
    }
    match f.fetch(&url, Err("connection refused".to_string())) {
        Err(Error::HttpError(m)) => assert_eq!(m, "Unsupported URL scheme: ftp"),
        other => panic!("{:?}", other),
    }
    match f.fetch(&addr("mailto:a@b.c"), transfer(404, Some("image/png"), "x")) {
        Err(Error::HttpError(m)) => assert_eq!(m, "Unsupported URL scheme: mailto"),
        other => panic!("{:?}", other),
    }
}

#[test]
fn check_head_judges_scheme_status_and_content_type_in_that_order() {
    let f = fetcher();
    let url = addr("https://example.com/a");
    assert!(f.check_head(&url, 200, Some("text/html")).is_ok());
    assert!(f.check_head(&url, 200, None).is_ok());
    match f.check_head(&addr("ftp://example.com/a"), 200, Some("text/html")) {
        Err(Error::HttpError(m)) => assert_eq!(m, "Unsupported URL scheme: ftp"),
        other => panic!("{:?}", other),
    }
    match f.check_head(&url, 503, Some("image/png")) {
        Err(Error::HttpError(m)) => assert_eq!(m, "HTTP 503 for https://example.com/a"),
        other => panic!("{:?}", other),
    }
    match f.check_head(&url, 200, Some("image/png")) {
        Err(Error::InvalidResponse(m)) => assert_eq!(m, "Non-HTML content type: image/png"),
        other => panic!("{:?}", other),
    }
}
