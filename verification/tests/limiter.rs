use web_crawler::common::error::Error;
use web_crawler::crawler::address::Address;
use web_crawler::crawler::limiter::PolitenessLimiter;

fn addr(s: &str) -> Address {
    Address::parse(s).unwrap()
}

#[test]
fn the_first_request_to_a_domain_goes_at_once() {
    let mut l = PolitenessLimiter::new(1000);
    assert_eq!(l.wait(&addr("https://a.com/1"), 500).unwrap(), 0);
}

#[test]
fn the_second_request_waits_for_the_rest_of_the_delay() {
    let mut l = PolitenessLimiter::new(1000);
    assert_eq!(l.wait(&addr("https://a.com/1"), 500).unwrap(), 0);
    assert_eq!(l.wait(&addr("https://a.com/2"), 700).unwrap(), 800);
    // The second request was granted 1500; a third at 1600 goes at 2500.
    assert_eq!(l.wait(&addr("https://a.com/3"), 1600).unwrap(), 900);
}

#[test]
fn requests_spaced_by_the_delay_do_not_wait() {
    let mut l = PolitenessLimiter::new(1000);
    assert_eq!(l.wait(&addr("https://a.com/1"), 0).unwrap(), 0);
    assert_eq!(l.wait(&addr("https://a.com/1"), 1000).unwrap(), 0);
    assert_eq!(l.wait(&addr("https://a.com/1"), 1999).unwrap(), 1);
    assert_eq!(l.wait(&addr("https://a.com/1"), 9000).unwrap(), 0);
}

#[test]
fn two_requests_at_the_same_moment_are_spaced() {
    let mut l = PolitenessLimiter::new(250);
    assert_eq!(l.wait(&addr("https://a.com/1"), 10).unwrap(), 0);
    assert_eq!(l.wait(&addr("https://a.com/2"), 10).unwrap(), 250);
    assert_eq!(l.wait(&addr("https://a.com/3"), 10).unwrap(), 500);
}

#[test]
fn a_request_before_the_recorded_time_still_keeps_the_spacing() {
    let mut l = PolitenessLimiter::new(100);
    assert_eq!(l.wait(&addr("https://a.com/1"), 1000).unwrap(), 0);
    assert_eq!(l.wait(&addr("https://a.com/1"), 400).unwrap(), 700);
}

#[test]
fn one_domain_does_not_hold_up_another() {
    let mut l = PolitenessLimiter::new(1000);
    assert_eq!(l.wait(&addr("https://a.com/1"), 0).unwrap(), 0);
    assert_eq!(l.wait(&addr("https://a.com/2"), 0).unwrap(), 1000);
    assert_eq!(l.wait(&addr("https://b.com/1"), 1).unwrap(), 0);
    assert_eq!(l.wait(&addr("http://sub.a.com/1"), 2).unwrap(), 0);
}

#[test]
fn without_delay_nothing_waits() {
    let mut l = PolitenessLimiter::new(0);
    assert_eq!(l.wait(&addr("https://a.com/1"), 5).unwrap(), 0);
    assert_eq!(l.wait(&addr("https://a.com/1"), 5).unwrap(), 0);
}

#[test]
fn an_address_without_domain_is_an_error() {
    let mut l = PolitenessLimiter::new(1000);
    match l.wait(&addr("https://127.0.0.1/x"), 0) {
        Err(Error::InvalidResponse(m)) => assert_eq!(m, "No domain in URL"),
        other => panic!("{:?}", other),
    }
    match l.wait(&addr("mailto:a@b.c"), 0) {
        Err(Error::InvalidResponse(m)) => assert_eq!(m, "No domain in URL"),
        other => panic!("{:?}", other),
    }
}

#[test]
fn a_time_beyond_the_clock_is_an_error_and_records_nothing() {
    let mut l = PolitenessLimiter::new(1000);
    assert_eq!(l.wait(&addr("https://a.com/1"), u64::MAX - 10).unwrap(), 0);
    match l.wait(&addr("https://a.com/2"), u64::MAX - 5) {
        Err(Error::RateLimitError(m)) => assert_eq!(m, "a.com"),
        other => panic!("{:?}", other),
    }
    match l.wait(&addr("https://a.com/2"), 0) {
        Err(Error::RateLimitError(m)) => assert_eq!(m, "a.com"),
        other => panic!("{:?}", other),
    }
    assert_eq!(l.wait(&addr("https://b.com/2"), u64::MAX).unwrap(), 0);
}

#[test]
fn the_largest_time_that_fits_is_granted() {
    let mut l = PolitenessLimiter::new(10);
    assert_eq!(l.wait(&addr("https://a.com/1"), u64::MAX - 10).unwrap(), 0);
    assert_eq!(l.wait(&addr("https://a.com/2"), u64::MAX - 10).unwrap(), 10);
}
