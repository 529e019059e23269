//! Robots policy: parsing `robots.txt`, answering allow and deny, and a
//! per-domain cache that expires.
//!
//! Fetching is left to the caller. [`RobotsChecker::get_rules`] says when
//! a fetch is needed and takes its outcome in a second call.

use crate::common::error::Error;
use crate::common::text::{
    chars_of,
    contains,
    contains_chars,
    find_char,
    first_index,
    is_text,
    lowercase,
    lowercase_of,
    parse_decimal,
    parse_u64,
    slice_of,
    starts_with_any,
    starts_with_one_of,
    string_of,
    texts,
    trim_bounds,
    trimmed,
};
use crate::crawler::address::{url_parse, Address, AddressView};
use crate::crawler::fetcher::{FetchResponse, Fetcher};
use vstd::hash_map::StringHashMap;
use vstd::prelude::*;
use vstd::string::StringExecFns;

verus! {

/// How long a cached ruleset stays fresh: one hour, in milliseconds.
pub const CACHE_TTL_MS: u64 = 3_600_000;

/// The timeout of a fetch of `robots.txt`, in seconds.
pub const ROBOTS_TIMEOUT_SECONDS: u64 = 10;

/// The largest number of bytes read of a `robots.txt`.
pub const ROBOTS_MAX_SIZE: usize = 1024 * 1024;

/// The rules of one site for this crawler.
#[derive(Debug)]
pub struct RobotsRules {
    /// Path prefixes that must not be fetched.
    pub disallowed_paths: Vec<String>,
    /// Path prefixes that may be fetched, whatever is disallowed.
    pub allowed_paths: Vec<String>,
    /// The delay the site asks for between two requests, in seconds.
    pub crawl_delay: Option<u64>,
    /// The address of the site map, as written.
    pub sitemap: Option<String>,
}

/// The mathematical value of a [`RobotsRules`].
pub struct RulesView {
    pub disallowed: Seq<Seq<char>>,
    pub allowed: Seq<Seq<char>>,
    pub crawl_delay: Option<u64>,
    pub sitemap: Option<Seq<char>>,
}

impl View for RobotsRules {
    type V = RulesView;

    open spec fn view(&self) -> RulesView {
        RulesView {
            disallowed: texts(self.disallowed_paths@),
            allowed: texts(self.allowed_paths@),
            crawl_delay: self.crawl_delay,
            sitemap: match self.sitemap {
                Some(s) => Some(s@),
                None => None,
            },
        }
    }
}

impl RulesView {
    /// No rule at all.
    pub open spec fn empty() -> RulesView {
        RulesView {
            disallowed: Seq::empty(),
            allowed: Seq::empty(),
            crawl_delay: None,
            sitemap: None,
        }
    }

    /// Whether `path` may be fetched: some allowed prefix matches it, or
    /// no disallowed prefix does. An allowed prefix wins over every
    /// disallowed one, however long.
    pub open spec fn allows(self, path: Seq<char>) -> bool {
        starts_with_one_of(path, self.allowed) || !starts_with_one_of(path, self.disallowed)
    }
}

/// Where the parser stands between two lines: the rules gathered so far,
/// and whether the current `User-agent` block applies to this crawler.
pub struct ParseState {
    pub rules: RulesView,
    pub applies: bool,
}

/// The state with these rules and this flag.
pub open spec fn parse_state(rules: RulesView, applies: bool) -> ParseState {
    ParseState { rules, applies }
}

/// Whether a `User-agent` value names this crawler: it is `*`, or its
/// lowercase form occurs in the crawler's lower-cased user-agent string.
pub open spec fn names_agent(value: Seq<char>, agent: Seq<char>) -> bool {
    lowercase(value) == "*"@ || contains(agent, lowercase(value))
}

/// The state after a directive with its value. `agent` is the crawler's
/// user-agent string in lowercase.
pub open spec fn apply_directive(
    state: ParseState,
    directive: Seq<char>,
    value: Seq<char>,
    agent: Seq<char>,
) -> ParseState {
    if directive == "user-agent"@ {
        ParseState { applies: names_agent(value, agent), ..state }
    } else if directive == "disallow"@ {
        if state.applies && value.len() > 0 {
            ParseState {
                rules: RulesView { disallowed: state.rules.disallowed.push(value), ..state.rules },
                ..state
            }
        } else {
            state
        }
    } else if directive == "allow"@ {
        if state.applies && value.len() > 0 {
            ParseState {
                rules: RulesView { allowed: state.rules.allowed.push(value), ..state.rules },
                ..state
            }
        } else {
            state
        }
    } else if directive == "crawl-delay"@ {
        if state.applies && parse_u64(value) is Some {
            ParseState {
                rules: RulesView { crawl_delay: parse_u64(value), ..state.rules },
                ..state
            }
        } else {
            state
        }
    } else if directive == "sitemap"@ {
        ParseState { rules: RulesView { sitemap: Some(value), ..state.rules }, ..state }
    } else {
        state
    }
}

/// The state after one line. Blank lines, lines that begin with `#` and
/// lines without a `:` change nothing. Of any other line, what stands
/// before the first `:`, trimmed and lower-cased, is the directive, and
/// what follows it, trimmed, is the value.
pub open spec fn parse_line(state: ParseState, raw: Seq<char>, agent: Seq<char>) -> ParseState {
    let line = trimmed(raw);
    let colon = first_index(line, ':');
    if line.len() == 0 || line[0] == '#' || colon >= line.len() {
        state
    } else {
        apply_directive(
            state,
            lowercase(trimmed(line.take(colon))),
            trimmed(line.skip(colon + 1)),
            agent,
        )
    }
}

/// The state after every line of `text`, where lines end at `\n`.
pub open spec fn parse_lines(state: ParseState, text: Seq<char>, agent: Seq<char>) -> ParseState
    decreases text.len(),
{
    let end = first_index(text, '\n');
    let next = parse_line(state, text.take(end), agent);
    if 0 <= end < text.len() {
        parse_lines(next, text.skip(end + 1), agent)
    } else {
        next
    }
}

/// The rules that `content` holds for the crawler that calls itself
/// `user_agent`.
pub open spec fn parse_robots(content: Seq<char>, user_agent: Seq<char>) -> RulesView {
    parse_lines(parse_state(RulesView::empty(), false), content, lowercase(user_agent)).rules
}

/// Fail-open: without rules every path is allowed.
pub proof fn lemma_no_rules_allow_all(path: Seq<char>)
    ensures
        RulesView::empty().allows(path),
{
}

/// Precedence: a path under an allowed prefix is allowed whatever is
/// disallowed, and a path under a disallowed prefix and under no allowed
/// one is denied.
pub proof fn lemma_allow_wins(rules: RulesView, path: Seq<char>, i: int)
    requires
        0 <= i < rules.allowed.len(),
        rules.allowed[i].is_prefix_of(path),
    ensures
        rules.allows(path),
{
}

/// See [`lemma_allow_wins`].
pub proof fn lemma_disallow_denies(rules: RulesView, path: Seq<char>, i: int)
    requires
        0 <= i < rules.disallowed.len(),
        rules.disallowed[i].is_prefix_of(path),
        !starts_with_one_of(path, rules.allowed),
    ensures
        !rules.allows(path),
{
}

impl Default for RobotsRules {
    fn default() -> (r: Self)
        ensures
            r@ == RulesView::empty(),
    {
        let r = RobotsRules {
            disallowed_paths: Vec::new(),
            allowed_paths: Vec::new(),
            crawl_delay: None,
            sitemap: None,
        };
        assert(r@.allowed =~= Seq::empty());
        r
    }
}

impl Clone for RobotsRules {
    fn clone(&self) -> (r: Self)
        ensures
            r@ == self@,
    {
        let r = RobotsRules {
            disallowed_paths: clone_texts(&self.disallowed_paths),
            allowed_paths: clone_texts(&self.allowed_paths),
            crawl_delay: self.crawl_delay,
            sitemap: match &self.sitemap {
                Some(s) => Some(s.clone()),
                None => None,
            },
        };
        r
    }
}

/// A copy of a list of strings.
fn clone_texts(list: &Vec<String>) -> (out: Vec<String>)
    ensures
        texts(out@) == texts(list@),
{
    let mut out: Vec<String> = Vec::new();
    let mut i: usize = 0;
    while i < list.len()
        invariant
            i <= list.len(),
            out@.len() == i,
            forall|j: int| 0 <= j < i ==> out@[j]@ == list@[j]@,
        decreases list.len() - i,
    {
        out.push(list[i].clone());
        i += 1;
    }
    out
}

impl RobotsRules {
    /// Whether `path` may be fetched under these rules.
    pub fn allows(&self, path: &str) -> (r: bool)
        ensures
            r == self@.allows(path@),
    {
        let chars = chars_of(path);
        if starts_with_any(&chars, &self.allowed_paths) {
            return true;
        }
        !starts_with_any(&chars, &self.disallowed_paths)
    }

    /// Takes in one line, `text[from..to]`.
    fn read_line(
        &mut self,
        applies: &mut bool,
        text: &Vec<char>,
        from: usize,
        to: usize,
        agent: &Vec<char>,
    )
        requires
            from <= to <= text.len(),
        ensures
            parse_state(final(self)@, *final(applies)) == parse_line(
                parse_state(old(self)@, *old(applies)),
                text@.subrange(from as int, to as int),
                agent@,
            ),
    {
        let (lo, hi) = trim_bounds(text, from, to);
        let ghost line = text@.subrange(lo as int, hi as int);
        if lo == hi || text[lo] == '#' {
            return ;
        }
        let colon = find_char(text, lo, hi, ':');
        if colon == hi {
            return ;
        }
        let (name_lo, name_hi) = trim_bounds(text, lo, colon);
        let (value_lo, value_hi) = trim_bounds(text, colon + 1, hi);
        let directive = lowercase_of(text, name_lo, name_hi);
        let ghost value = text@.subrange(value_lo as int, value_hi as int);
        proof {
            assert(line.take(colon - lo) =~= text@.subrange(lo as int, colon as int));
            assert(line.skip(colon - lo + 1) =~= text@.subrange(colon + 1, hi as int));
        }
        if is_text(&directive, "user-agent") {
            let named = lowercase_of(text, value_lo, value_hi);
            *applies = is_text(&named, "*") || contains_chars(agent, &named);
        } else if is_text(&directive, "disallow") {
            if *applies && value_lo < value_hi {
                let ghost before = texts(self.disallowed_paths@);
                self.disallowed_paths.push(string_of(text, value_lo, value_hi));
                assert(texts(self.disallowed_paths@) =~= before.push(value));
            }
        } else if is_text(&directive, "allow") {
            if *applies && value_lo < value_hi {
                let ghost before = texts(self.allowed_paths@);
                self.allowed_paths.push(string_of(text, value_lo, value_hi));
                assert(texts(self.allowed_paths@) =~= before.push(value));
            }
        } else if is_text(&directive, "crawl-delay") {
            if *applies {
                let digits = slice_of(text, value_lo, value_hi);
                match parse_decimal(&digits) {
                    Some(seconds) => {
                        self.crawl_delay = Some(seconds);
                    },
                    None => {},
                }
            }
        } else if is_text(&directive, "sitemap") {
            self.sitemap = Some(string_of(text, value_lo, value_hi));
        }
    }

    /// Reads the rules that `content` holds for the crawler that calls
    /// itself `user_agent`.
    pub fn parse(content: &str, user_agent: &str) -> (rules: RobotsRules)
        ensures
            rules@ == parse_robots(content@, user_agent@),
    {
        let text = chars_of(content);
        let name = chars_of(user_agent);
        assert(name@.subrange(0, name@.len() as int) =~= name@);
        let agent = lowercase_of(&name, 0, name.len());
        let mut rules = RobotsRules::default();
        let mut applies = false;
        let mut from: usize = 0;
        let ghost start = parse_state(RulesView::empty(), false);
        assert(text@.skip(0) =~= text@);
        loop
            invariant_except_break
                parse_lines(start, text@, agent@) == parse_lines(
                    parse_state(rules@, applies),
                    text@.skip(from as int),
                    agent@,
                ),
            invariant
                from <= text.len(),
                agent@ == lowercase(user_agent@),
                text@ == content@,
                start == parse_state(RulesView::empty(), false),
            ensures
                rules@ == parse_lines(start, text@, agent@).rules,
            decreases text.len() - from,
        {
            let ghost rest = text@.skip(from as int);
            let to = find_char(&text, from, text.len(), '\n');
            proof {
                assert(rest.take(to - from) =~= text@.subrange(from as int, to as int));
            }
            rules.read_line(&mut applies, &text, from, to, &agent);
            if to >= text.len() {
                break ;
            }
            assert(rest.skip(to - from + 1) =~= text@.skip(to + 1));
            from = to + 1;
        }
        rules
    }
}

/// A ruleset with the time at which it was fetched.
#[derive(Debug)]
pub struct RobotsCache {
    pub rules: RobotsRules,
    /// Milliseconds on the caller's clock.
    pub fetched_at: u64,
}

/// What a query to the checker comes to.
#[derive(Debug)]
pub enum RobotsAnswer<T> {
    /// The answer.
    Ready(T),
    /// No fresh rules are cached for the domain: fetch this address, the
    /// site's `robots.txt`, and ask again with the outcome.
    Fetch(Address),
}

/// Where a query to the checker finds its rules.
pub enum Consulted {
    /// Nowhere: the address has no domain.
    NoDomain,
    /// In these rules.
    Rules(RulesView),
    /// In the `robots.txt` at this location, which has to be fetched
    /// first.
    AskFetch(Seq<char>),
}

/// Robots rules per domain, cached for an hour.
pub struct RobotsChecker {
    cache: StringHashMap<RobotsCache>,
    cache_duration: u64,
    user_agent: String,
}

/// Whether rules fetched at `fetched_at` are still fresh at `now`: their
/// age is at most `ttl`. Rules from the future count as new.
pub open spec fn is_fresh(fetched_at: u64, now: u64, ttl: u64) -> bool {
    now <= fetched_at || now - fetched_at <= ttl
}

/// The text of the address of a site's `robots.txt`.
pub open spec fn robots_location(scheme: Seq<char>, domain: Seq<char>) -> Seq<char> {
    scheme + "://"@ + domain + "/robots.txt"@
}

/// The rules to use when a fetch of `robots.txt` ended as `outcome`: those
/// in the body, or none at all where the fetch failed.
pub open spec fn rules_after_fetch(
    outcome: Result<FetchResponse, Error>,
    user_agent: Seq<char>,
) -> RulesView {
    match outcome {
        Ok(response) => parse_robots(response.body@, user_agent),
        Err(_) => RulesView::empty(),
    }
}

impl RobotsChecker {
    /// The cache as a map from domain to rules and fetch time.
    pub closed spec fn cache(&self) -> Map<Seq<char>, RobotsCache> {
        self.cache@
    }

    /// The name under which this crawler looks for its rules.
    pub closed spec fn user_agent(&self) -> Seq<char> {
        self.user_agent@
    }

    /// How long rules stay fresh, in milliseconds.
    pub closed spec fn cache_duration(&self) -> u64 {
        self.cache_duration
    }

    /// The cached rules for `domain` if they are fresh at `now`.
    pub open spec fn fresh_rules(&self, domain: Seq<char>, now: u64) -> Option<RulesView> {
        if self.cache().contains_key(domain) && is_fresh(
            self.cache()[domain].fetched_at,
            now,
            self.cache_duration(),
        ) {
            Some(self.cache()[domain].rules@)
        } else {
            None
        }
    }

    /// A checker with an empty cache.
    pub fn new(user_agent: String) -> (r: Self)
        ensures
            r.cache() == Map::<Seq<char>, RobotsCache>::empty(),
            r.user_agent() == user_agent@,
            r.cache_duration() == CACHE_TTL_MS,
    {
        RobotsChecker { cache: StringHashMap::new(), cache_duration: CACHE_TTL_MS, user_agent }
    }

    /// The settings with which `robots.txt` is to be fetched: this
    /// crawler's user agent, a short timeout and a small size cap.
    pub fn fetcher(&self) -> (r: Fetcher)
        ensures
            r.user_agent()@ == self.user_agent(),
            r.timeout_seconds() == ROBOTS_TIMEOUT_SECONDS,
            r.max_size() == ROBOTS_MAX_SIZE,
    {
        Fetcher::new(self.user_agent.clone(), ROBOTS_TIMEOUT_SECONDS, ROBOTS_MAX_SIZE)
    }

    /// Reads the rules that `content` holds for this crawler.
    pub fn parse_robots_txt(&self, content: &str) -> (r: Result<RobotsRules, Error>)
        ensures
            r matches Ok(rules) && rules@ == parse_robots(content@, self.user_agent()),
    {
        Ok(RobotsRules::parse(content, self.user_agent.as_str()))
    }

    /// The rules in a fetched `robots.txt`, or the error of the fetch.
    pub fn fetch_and_parse(&self, outcome: Result<FetchResponse, Error>) -> (r: Result<
        RobotsRules,
        Error,
    >)
        ensures
            match r {
                Ok(rules) => outcome is Ok && rules@ == rules_after_fetch(
                    outcome,
                    self.user_agent(),
                ),
                Err(e) => outcome == Err::<FetchResponse, Error>(e),
            },
    {
        match outcome {
            Ok(response) => self.parse_robots_txt(response.body.as_str()),
            Err(e) => Err(e),
        }
    }

    /// The address of the `robots.txt` of `url`'s site.
    pub fn robots_url(url: &Address) -> (r: Result<Address, Error>)
        ensures
            match url@.domain {
                None => r matches Err(Error::InvalidResponse(m)) && m@ == "No domain in URL"@,
                Some(domain) => match r {
                    Ok(a) => url_parse(robots_location(url@.scheme, domain)) == Some(a@),
                    Err(e) => url_parse(robots_location(url@.scheme, domain)) is None
                        && e is UrlParseError,
                },
            },
    {
        match url.domain() {
            None => Err(Error::InvalidResponse("No domain in URL".to_owned())),
            Some(domain) => {
                let mut text = url.scheme().to_owned();
                text.append("://");
                text.append(domain);
                text.append("/robots.txt");
                Address::parse(text.as_str())
            },
        }
    }

    /// Where a query for `url` at `now` finds its rules. An address
    /// without a domain has none. Fresh rules in the cache are used, and
    /// `fetched` is not looked at. Without them a fetch is asked for as
    /// long as `fetched` is `None`; with the outcome of that fetch the
    /// rules are those in the body, or none at all where the fetch
    /// failed.
    pub open spec fn consult(
        &self,
        url: AddressView,
        fetched: Option<Result<FetchResponse, Error>>,
        now: u64,
    ) -> Consulted {
        match url.domain {
            None => Consulted::NoDomain,
            Some(domain) => match self.fresh_rules(domain, now) {
                Some(rules) => Consulted::Rules(rules),
                None => match fetched {
                    None => Consulted::AskFetch(robots_location(url.scheme, domain)),
                    Some(outcome) => Consulted::Rules(
                        rules_after_fetch(outcome, self.user_agent()),
                    ),
                },
            },
        }
    }

    /// What a query does to the checker: `pre` is the checker before the
    /// call, `post` the checker after it. Rules taken from a fetch are
    /// cached under the domain with the time `now`, in place of what was
    /// cached for it. Nothing else changes, and a query that takes no
    /// rules from a fetch changes nothing at all.
    pub open spec fn refreshed(
        pre: RobotsChecker,
        post: RobotsChecker,
        url: AddressView,
        fetched: Option<Result<FetchResponse, Error>>,
        now: u64,
    ) -> bool {
        &&& post.user_agent() == pre.user_agent()
        &&& post.cache_duration() == pre.cache_duration()
        &&& if url.domain is Some && pre.fresh_rules(url.domain.unwrap(), now) is None
            && fetched is Some {
            let domain = url.domain.unwrap();
            &&& post.cache().dom() == pre.cache().dom().insert(domain)
            &&& post.cache()[domain].rules@ == rules_after_fetch(
                fetched.unwrap(),
                pre.user_agent(),
            )
            &&& post.cache()[domain].fetched_at == now
            &&& forall|other: Seq<char>|
                other != domain && pre.cache().contains_key(other) ==> post.cache()[other]
                    == pre.cache()[other]
        } else {
            post.cache() == pre.cache()
        }
    }

    /// Whether `r` is the answer to a query that found `consulted` and
    /// wants to know `pick` of the rules.
    pub open spec fn answered<T>(
        consulted: Consulted,
        pick: spec_fn(RulesView) -> T,
        r: Result<RobotsAnswer<T>, Error>,
    ) -> bool {
        match consulted {
            Consulted::NoDomain => r matches Err(Error::InvalidResponse(m)) && m@
                == "No domain in URL"@,
            Consulted::Rules(rules) => r == Ok::<RobotsAnswer<T>, Error>(
                RobotsAnswer::Ready(pick(rules)),
            ),
            Consulted::AskFetch(location) => match r {
                Ok(RobotsAnswer::Fetch(a)) => url_parse(location) == Some(a@),
                Ok(RobotsAnswer::Ready(_)) => false,
                Err(e) => url_parse(location) is None && e is UrlParseError,
            },
        }
    }

    /// Whether a query for `url` at `now` is decided by a fetch of
    /// `robots.txt` that failed: `url` has a domain, the cache holds no
    /// fresh rules for it, and `fetched` is an error.
    pub open spec fn fails_open(
        &self,
        url: AddressView,
        fetched: Option<Result<FetchResponse, Error>>,
        now: u64,
    ) -> bool {
        &&& url.domain is Some
        &&& self.fresh_rules(url.domain.unwrap(), now) is None
        &&& fetched is Some
        &&& fetched.unwrap() is Err
    }

    /// The rules for `url`'s domain; see [`RobotsChecker::consult`] for
    /// where they come from and [`RobotsChecker::refreshed`] for what is
    /// cached.
    pub fn get_rules(
        &mut self,
        url: &Address,
        fetched: Option<Result<FetchResponse, Error>>,
        now: u64,
    ) -> (r: Result<RobotsAnswer<RobotsRules>, Error>)
        ensures
            Self::refreshed(*old(self), *final(self), url@, fetched, now),
            match old(self).consult(url@, fetched, now) {
                Consulted::NoDomain => r matches Err(Error::InvalidResponse(m)) && m@
                    == "No domain in URL"@,
                Consulted::Rules(rules) => r matches Ok(RobotsAnswer::Ready(found)) && found@
                    == rules,
                Consulted::AskFetch(location) => match r {
                    Ok(RobotsAnswer::Fetch(a)) => url_parse(location) == Some(a@),
                    Ok(RobotsAnswer::Ready(_)) => false,
                    Err(e) => url_parse(location) is None && e is UrlParseError,
                },
            },
    {
        let domain = match url.domain() {
            None => {
                return Err(Error::InvalidResponse("No domain in URL".to_owned()));
            },
            Some(domain) => domain,
        };
        match self.cache.get(domain) {
            Some(cached) => {
                if now <= cached.fetched_at || now - cached.fetched_at <= self.cache_duration {
                    return Ok(RobotsAnswer::Ready(cached.rules.clone()));
                }
            },
            None => {},
        }
        let outcome = match fetched {
            None => {
                return match Self::robots_url(url) {
                    Ok(a) => Ok(RobotsAnswer::Fetch(a)),
                    Err(e) => Err(e),
                };
            },
            Some(outcome) => outcome,
        };
        let rules = match self.fetch_and_parse(outcome) {
            Ok(rules) => rules,
            Err(_) => RobotsRules::default(),
        };
        let answer = rules.clone();
        self.cache.insert(domain.to_owned(), RobotsCache { rules, fetched_at: now });
        Ok(RobotsAnswer::Ready(answer))
    }

    /// Whether `url` may be fetched under the rules of its domain; see
    /// [`RobotsChecker::consult`] for where they come from and
    /// [`RobotsChecker::refreshed`] for what is cached. Where the fetch
    /// of `robots.txt` failed, every address is allowed.
    pub fn is_allowed(
        &mut self,
        url: &Address,
        fetched: Option<Result<FetchResponse, Error>>,
        now: u64,
    ) -> (r: Result<RobotsAnswer<bool>, Error>)
        ensures
            Self::refreshed(*old(self), *final(self), url@, fetched, now),
            Self::answered(
                old(self).consult(url@, fetched, now),
                |rules: RulesView| rules.allows(url@.path),
                r,
            ),
            old(self).fails_open(url@, fetched, now) ==> r == Ok::<RobotsAnswer<bool>, Error>(
                RobotsAnswer::Ready(true),
            ),
    {
        match self.get_rules(url, fetched, now) {
            Ok(RobotsAnswer::Ready(rules)) => Ok(
                RobotsAnswer::Ready(rules.allows(url.path())),
            ),
            Ok(RobotsAnswer::Fetch(a)) => Ok(RobotsAnswer::Fetch(a)),
            Err(e) => Err(e),
        }
    }

    /// The delay, in seconds, that `url`'s site asks for between two
    /// requests; see [`RobotsChecker::consult`] for where the rules come
    /// from and [`RobotsChecker::refreshed`] for what is cached.
    pub fn get_crawl_delay(
        &mut self,
        url: &Address,
        fetched: Option<Result<FetchResponse, Error>>,
        now: u64,
    ) -> (r: Result<RobotsAnswer<Option<u64>>, Error>)
        ensures
            Self::refreshed(*old(self), *final(self), url@, fetched, now),
            Self::answered(
                old(self).consult(url@, fetched, now),
                |rules: RulesView| rules.crawl_delay,
                r,
            ),
    {
        match self.get_rules(url, fetched, now) {
            Ok(RobotsAnswer::Ready(rules)) => Ok(RobotsAnswer::Ready(rules.crawl_delay)),
            Ok(RobotsAnswer::Fetch(a)) => Ok(RobotsAnswer::Fetch(a)),
            Err(e) => Err(e),
        }
    }
}

} // verus!
