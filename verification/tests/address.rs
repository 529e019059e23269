use web_crawler::common::error::Error;
use web_crawler::crawler::address::Address;

fn last(url: &str) -> Option<String> {
    Address::parse(url).unwrap().last_segment().map(|v| v.into_iter().collect())
}

#[test]
fn parse_splits_an_address_into_its_parts() {
    let a = Address::parse("https://example.com/api/versions?page=2#top").unwrap();
    assert_eq!(a.as_str(), "https://example.com/api/versions?page=2#top");
    assert_eq!(a.scheme(), "https");
    assert_eq!(a.domain(), Some("example.com"));
    assert_eq!(a.path(), "/api/versions");
    assert_eq!(a.as_str(), "https://example.com/api/versions?page=2#top");
}

#[test]
fn parse_normalises_what_it_reads() {
    let a = Address::parse("HTTP://Example.COM/a/../b").unwrap();
    assert_eq!(a.as_str(), "http://example.com/b");
    assert_eq!(a.scheme(), "http");
    assert_eq!(a.domain(), Some("example.com"));
    assert_eq!(a.path(), "/b");
    let bare = Address::parse("https://example.com").unwrap();
    assert_eq!(bare.as_str(), "https://example.com/");
    assert_eq!(bare.path(), "/");
}

#[test]
fn parse_rejects_what_is_no_absolute_address() {
    assert!(matches!(Address::parse("/relative/path"), Err(Error::UrlParseError(_))));
    assert!(matches!(Address::parse(""), Err(Error::UrlParseError(_))));
    assert!(matches!(Address::parse("http://"), Err(Error::UrlParseError(_))));
}

#[test]
fn an_ip_address_is_no_domain() {
    let a = Address::parse("https://127.0.0.1/index.html").unwrap();
    assert_eq!(a.domain(), None);
    let mail = Address::parse("mailto:rms@example.net").unwrap();
    assert_eq!(mail.domain(), None);
    assert_eq!(mail.scheme(), "mailto");
}

#[test]
fn join_resolves_against_the_base() {
    let base = Address::parse("https://example.net/a/b.html").unwrap();
    assert_eq!(base.join("c.png").unwrap().as_str(), "https://example.net/a/c.png");
    assert_eq!(base.join("/v1/meta").unwrap().as_str(), "https://example.net/v1/meta");
    assert_eq!(base.join("//eve.com/b").unwrap().as_str(), "https://eve.com/b");
    assert_eq!(base.join("http://eve.com/b").unwrap().as_str(), "http://eve.com/b");
    assert_eq!(base.join("../x").unwrap().path(), "/x");
    let dir = Address::parse("https://example.net/a/b/").unwrap();
    assert_eq!(dir.join("c.png").unwrap().as_str(), "https://example.net/a/b/c.png");
}

#[test]
fn join_fails_where_nothing_can_be_resolved() {
    let opaque = Address::parse("mailto:rms@example.net").unwrap();
    assert!(matches!(opaque.join("c.png"), Err(Error::UrlParseError(_))));
    let base = Address::parse("https://example.net/").unwrap();
    assert!(matches!(base.join("http://[::1"), Err(Error::UrlParseError(_))));
}

#[test]
fn is_http_knows_the_two_schemes() {
    assert!(Address::parse("http://example.com/").unwrap().is_http());
    assert!(Address::parse("https://example.com/").unwrap().is_http());
    assert!(!Address::parse("ftp://example.com/").unwrap().is_http());
    assert!(!Address::parse("httpx://example.com/").unwrap().is_http());
    assert!(!Address::parse("mailto:a@b.c").unwrap().is_http());
}

#[test]
fn last_segment_is_what_follows_the_last_slash() {
    assert_eq!(last("https://example.com/foo/bar"), Some("bar".to_string()));
    assert_eq!(last("https://example.com/foo/bar/"), Some("".to_string()));
    assert_eq!(last("https://example.com"), Some("".to_string()));
    assert_eq!(last("https://example.com/image.jpg?x=/y.html"), Some("image.jpg".to_string()));
    assert_eq!(last("https://example.com/a"), Some("a".to_string()));
}

#[test]
fn a_path_without_leading_slash_has_no_segments() {
    assert_eq!(last("data:text/plain,HelloWorld"), None);
    assert_eq!(last("mailto:rms@example.net"), None);
}

#[test]
fn clone_keeps_every_part() {
    let a = Address::parse("https://example.com/x?y=1").unwrap();
    let b = a.clone();
    assert_eq!(a.as_str(), b.as_str());
    assert_eq!(a.scheme(), b.scheme());
    assert_eq!(a.domain(), b.domain());
    assert_eq!(a.path(), b.path());
}
