use std::time::Duration;
use web_crawler::common::error::Error;
use web_crawler::crawler::address::Address;
use web_crawler::crawler::fetcher::FetchResponse;
use web_crawler::crawler::robots::RobotsAnswer;
use web_crawler::crawler::robots::RobotsChecker;
use web_crawler::crawler::robots::RobotsRules;
use web_crawler::crawler::robots::CACHE_TTL_MS;

fn addr(s: &str) -> Address {
    Address::parse(s).unwrap()
}

fn body(url: &str, text: &str) -> Result<FetchResponse, Error> {
    Ok(FetchResponse {
        url: addr(url),
        status_code: 200,
        content_type: Some("text/plain".to_string()),
        body: text.to_string(),
        headers: Vec::new(),
    })
}

fn ready<T>(r: Result<RobotsAnswer<T>, Error>) -> T {
    match r {
        Ok(RobotsAnswer::Ready(v)) => v,
        Ok(RobotsAnswer::Fetch(a)) => panic!("asked to fetch {}", a.as_str()),
        Err(e) => panic!("{:?}", e),
    }
}

fn wants(r: Result<RobotsAnswer<bool>, Error>) -> String {
    match r {
        Ok(RobotsAnswer::Fetch(a)) => a.as_str().to_string(),
        other => panic!("{:?}", other),
    }
}

const SAMPLE: &str = "
User-agent: *
Disallow: /private/
Disallow: /tmp/
Allow: /private/public.html
Crawl-delay: 1

User-agent: BadBot
Disallow: /

Sitemap: https://example.com/sitemap.xml
";

#[test]
fn test_parse_robots_txt() {
    let checker = RobotsChecker::new("TestBot".to_string());
    let content = r#"
User-agent: *
Disallow: /private/
Disallow: /tmp/
Allow: /private/public.html
Crawl-delay: 1

User-agent: BadBot
Disallow: /

Sitemap: https://example.com/sitemap.xml
"#;

    let rules = checker.parse_robots_txt(content).unwrap();
    assert_eq!(rules.disallowed_paths.len(), 2);
    assert_eq!(rules.allowed_paths.len(), 1);
    assert_eq!(rules.crawl_delay.map(Duration::from_secs), Some(Duration::from_secs(1)));
    assert_eq!(rules.sitemap, Some("https://example.com/sitemap.xml".to_string()));
}

#[test]
fn parse_keeps_the_values_as_written() {
    let rules = RobotsRules::parse(SAMPLE, "TestBot");
    assert_eq!(rules.disallowed_paths, vec!["/private/".to_string(), "/tmp/".to_string()]);
    assert_eq!(rules.allowed_paths, vec!["/private/public.html".to_string()]);
    assert_eq!(rules.crawl_delay, Some(1));
}

#[test]
fn an_allowed_prefix_wins_over_a_disallowed_one() {
    let rules = RobotsRules::parse("User-agent: *\nDisallow: /private/\nAllow: /private/public.html\n", "TestBot");
    assert!(rules.allows("/private/public.html"));
    assert!(!rules.allows("/private/x"));
    assert!(rules.allows("/public"));
    assert!(rules.allows("/private"));
    assert!(rules.allows("/private/public.html.bak"));
}

#[test]
fn the_order_and_length_of_rules_do_not_matter() {
    let rules = RobotsRules::parse("User-agent: *\nAllow: /a\nDisallow: /a/b/c/d\n", "TestBot");
    assert!(rules.allows("/a/b/c/d/e"));
    let none = RobotsRules::parse("User-agent: *\nDisallow: /\n", "TestBot");
    assert!(!none.allows("/"));
    assert!(!none.allows("/anything"));
    assert!(none.allows(""));
}

#[test]
fn without_rules_everything_is_allowed() {
    let rules = RobotsRules::default();
    assert!(rules.allows("/"));
    assert!(rules.allows("/private/x"));
    assert!(rules.allows(""));
    assert_eq!(rules.crawl_delay, None);
    assert_eq!(rules.sitemap, None);
    let empty = RobotsRules::parse("", "TestBot");
    assert!(empty.disallowed_paths.is_empty());
    assert!(empty.allowed_paths.is_empty());
    assert!(empty.allows("/x"));
}

#[test]
fn a_block_applies_by_substring_in_any_case() {
    let text = "User-agent: testbot\nDisallow: /a\nUser-agent: OtherBot\nDisallow: /b\nUser-agent: BOT\nDisallow: /c\n";
    let rules = RobotsRules::parse(text, "MyTestBot/1.0");
    assert_eq!(rules.disallowed_paths, vec!["/a".to_string(), "/c".to_string()]);
}

#[test]
fn a_block_with_an_empty_agent_applies() {
    let rules = RobotsRules::parse("User-agent:\nDisallow: /a\n", "TestBot");
    assert_eq!(rules.disallowed_paths, vec!["/a".to_string()]);
}

#[test]
fn rules_before_any_block_are_ignored() {
    let rules = RobotsRules::parse("Disallow: /a\nAllow: /b\nCrawl-delay: 3\nSitemap: s\n", "TestBot");
    assert!(rules.disallowed_paths.is_empty());
    assert!(rules.allowed_paths.is_empty());
    assert_eq!(rules.crawl_delay, None);
    assert_eq!(rules.sitemap, Some("s".to_string()));
}

#[test]
fn a_later_block_replaces_the_applicability() {
    let rules = RobotsRules::parse("User-agent: *\nUser-agent: BadBot\nDisallow: /a\n", "TestBot");
    assert!(rules.disallowed_paths.is_empty());
}

#[test]
fn directives_are_read_in_any_case_and_spacing() {
    let text = "  USER-AGENT :  *  \r\n\tDISALLOW\t:\t/x y \r\nallow:/z\r\n  Crawl-Delay : 20\r\nSiteMap:  http://s/a:b  ";
    let rules = RobotsRules::parse(text, "TestBot");
    assert_eq!(rules.disallowed_paths, vec!["/x y".to_string()]);
    assert_eq!(rules.allowed_paths, vec!["/z".to_string()]);
    assert_eq!(rules.crawl_delay, Some(20));
    assert_eq!(rules.sitemap, Some("http://s/a:b".to_string()));
}

#[test]
fn comments_blank_lines_and_lines_without_colon_are_skipped() {
    let text = "# Disallow: /a\n\n   \nUser-agent: *\n  # Disallow: /b\nDisallow /c\nDisallow: /d # not a comment\nnonsense: /e\n";
    let rules = RobotsRules::parse(text, "TestBot");
    assert_eq!(rules.disallowed_paths, vec!["/d # not a comment".to_string()]);
}

#[test]
fn empty_values_add_no_prefix() {
    let rules = RobotsRules::parse("User-agent: *\nDisallow:\nAllow:   \nSitemap:\n", "TestBot");
    assert!(rules.disallowed_paths.is_empty());
    assert!(rules.allowed_paths.is_empty());
    assert_eq!(rules.sitemap, Some(String::new()));
}

#[test]
fn a_crawl_delay_that_is_no_number_is_ignored() {
    let keep = |text: &str| RobotsRules::parse(text, "TestBot").crawl_delay;
    assert_eq!(keep("User-agent: *\nCrawl-delay: 5\nCrawl-delay: soon\n"), Some(5));
    assert_eq!(keep("User-agent: *\nCrawl-delay: 1.5\n"), None);
    assert_eq!(keep("User-agent: *\nCrawl-delay: -1\n"), None);
    assert_eq!(keep("User-agent: *\nCrawl-delay:\n"), None);
    assert_eq!(keep("User-agent: *\nCrawl-delay: 5\nCrawl-delay: 7\n"), Some(7));
    assert_eq!(keep("User-agent: *\nCrawl-delay: +3\n"), Some(3));
    assert_eq!(keep("User-agent: *\nCrawl-delay: 99999999999999999999\n"), None);
}

#[test]
fn the_last_sitemap_is_kept() {
    let rules = RobotsRules::parse("Sitemap: a\nUser-agent: BadBot\nSitemap: b\n", "TestBot");
    assert_eq!(rules.sitemap, Some("b".to_string()));
}

#[test]
fn rules_clone_to_equal_rules() {
    let rules = RobotsRules::parse(SAMPLE, "TestBot");
    let copy = rules.clone();
    assert_eq!(copy.disallowed_paths, rules.disallowed_paths);
    assert_eq!(copy.allowed_paths, rules.allowed_paths);
    assert_eq!(copy.crawl_delay, rules.crawl_delay);
    assert_eq!(copy.sitemap, rules.sitemap);
}

#[test]
fn the_robots_address_is_at_the_root_of_the_site() {
    let a = RobotsChecker::robots_url(&addr("https://example.com/a/b?c=d")).unwrap();
    assert_eq!(a.as_str(), "https://example.com/robots.txt");
    let b = RobotsChecker::robots_url(&addr("http://sub.example.com:8080/x")).unwrap();
    assert_eq!(b.as_str(), "http://sub.example.com/robots.txt");
    match RobotsChecker::robots_url(&addr("https://10.0.0.1/x")) {
        Err(Error::InvalidResponse(m)) => assert_eq!(m, "No domain in URL"),
        other => panic!("{:?}", other),
    }
}

#[test]
fn without_cached_rules_the_checker_asks_for_a_fetch() {
    let mut c = RobotsChecker::new("TestBot".to_string());
    let url = addr("https://example.com/private/x");
    assert_eq!(wants(c.is_allowed(&url, None, 0)), "https://example.com/robots.txt");
    assert_eq!(wants(c.is_allowed(&url, None, 1)), "https://example.com/robots.txt");
}

#[test]
fn fetched_rules_decide_and_are_cached() {
    let mut c = RobotsChecker::new("TestBot".to_string());
    let denied = addr("https://example.com/private/x");
    let allowed = addr("https://example.com/private/public.html");
    assert!(!ready(c.is_allowed(&denied, Some(body("https://example.com/robots.txt", SAMPLE)), 10)));
    assert!(ready(c.is_allowed(&allowed, None, 11)));
    assert!(!ready(c.is_allowed(&denied, None, 12)));
    assert_eq!(ready(c.get_crawl_delay(&denied, None, 13)), Some(1));
    let rules = ready(c.get_rules(&denied, None, 14));
    assert_eq!(rules.disallowed_paths.len(), 2);
    // Another domain has its own entry.
    assert_eq!(wants(c.is_allowed(&addr("https://other.com/private/x"), None, 15)), "https://other.com/robots.txt");
}

#[test]
fn fresh_rules_are_not_replaced_by_a_fetch() {
    let mut c = RobotsChecker::new("TestBot".to_string());
    let url = addr("https://example.com/private/x");
    assert!(!ready(c.is_allowed(&url, Some(body("https://example.com/robots.txt", SAMPLE)), 10)));
    assert!(!ready(c.is_allowed(&url, Some(body("https://example.com/robots.txt", "")), 20)));
    assert!(!ready(c.is_allowed(&url, Some(Err(Error::Timeout)), 30)));
}

#[test]
fn a_failed_fetch_allows_everything() {
    let mut c = RobotsChecker::new("TestBot".to_string());
    let url = addr("https://example.com/private/x");
    assert!(ready(c.is_allowed(&url, Some(Err(Error::HttpError("HTTP 500".to_string()))), 10)));
    assert!(ready(c.is_allowed(&addr("https://example.com/"), None, 11)));
    assert!(ready(c.is_allowed(&addr("https://example.com/tmp/y"), None, 12)));
    assert_eq!(ready(c.get_crawl_delay(&url, None, 13)), None);
}

#[test]
fn rules_grow_stale_after_an_hour() {
    let mut c = RobotsChecker::new("TestBot".to_string());
    let url = addr("https://example.com/private/x");
    assert_eq!(CACHE_TTL_MS, 3_600_000);
    assert!(!ready(c.is_allowed(&url, Some(body("https://example.com/robots.txt", SAMPLE)), 1000)));
    assert!(!ready(c.is_allowed(&url, None, 1000 + CACHE_TTL_MS)));
    assert_eq!(wants(c.is_allowed(&url, None, 1001 + CACHE_TTL_MS)), "https://example.com/robots.txt");
    // Rules from after `now` count as fresh.
    assert!(!ready(c.is_allowed(&url, None, 0)));
    // A refresh replaces the entry as a whole.
    assert!(ready(c.is_allowed(&url, Some(body("https://example.com/robots.txt", "")), 1001 + CACHE_TTL_MS)));
    assert!(ready(c.is_allowed(&url, None, 1002 + CACHE_TTL_MS)));
}

#[test]
fn an_address_without_domain_cannot_be_checked() {
    let mut c = RobotsChecker::new("TestBot".to_string());
    match c.is_allowed(&addr("https://127.0.0.1/x"), None, 0) {
        Err(Error::InvalidResponse(m)) => assert_eq!(m, "No domain in URL"),
        other => panic!("{:?}", other),
    }
    match c.get_crawl_delay(&addr("data:text/plain,x"), Some(Err(Error::Timeout)), 0) {
        Err(Error::InvalidResponse(m)) => assert_eq!(m, "No domain in URL"),
        other => panic!("{:?}", other),
    }
}

#[test]
fn fetch_and_parse_hands_the_error_on() {
    let c = RobotsChecker::new("TestBot".to_string());
    assert!(matches!(c.fetch_and_parse(Err(Error::Timeout)), Err(Error::Timeout)));
    let rules = c.fetch_and_parse(body("https://example.com/robots.txt", SAMPLE)).unwrap();
    assert_eq!(rules.allowed_paths.len(), 1);
}

#[test]
fn the_path_is_checked_without_query() {
    let mut c = RobotsChecker::new("TestBot".to_string());
    let text = "User-agent: *\nDisallow: /search\n";
    assert!(!ready(c.is_allowed(&addr("https://example.com/search?q=1"), Some(body("https://example.com/robots.txt", text)), 0)));
    assert!(ready(c.is_allowed(&addr("https://example.com/?q=/search"), None, 0)));
}
