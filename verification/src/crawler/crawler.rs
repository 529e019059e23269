//! The orchestrator: configuration, shared statistics, and the decisions
//! of a worker.
//!
//! A [`Crawler`] holds everything the workers share. It never fetches,
//! sleeps or reads a clock: each method is one decision, made on what the
//! caller reports, and says what to do next. A worker runs
//! [`Crawler::worker_loop`] to get a task, [`Crawler::before_fetch`] to
//! learn whether and when to fetch it, and [`Crawler::process_url`] with
//! what the fetch brought back.

use crate::common::error::Error;
use crate::crawler::address::{url_parse, Address, AddressView};
use crate::crawler::fetcher::{worth_fetching, FetchResponse, Fetcher};
use crate::crawler::frontier::{
    task_items,
    CrawlTask,
    FrontierStats,
    FrontierView,
    TaskView,
    UrlFrontier,
};
use crate::crawler::limiter::{dispatch_time, last_dispatch, PolitenessLimiter};
use crate::crawler::parser::{
    address_views,
    assemble_page,
    crawlable,
    scrape,
    ParsedPage,
    Parser,
};
use crate::crawler::robots::{
    Consulted,
    RobotsAnswer,
    RobotsCache,
    RobotsChecker,
    RulesView,
    CACHE_TTL_MS,
    ROBOTS_MAX_SIZE,
    ROBOTS_TIMEOUT_SECONDS,
};
use vstd::prelude::*;

verus! {

/// How long an idle worker sleeps before it looks at the frontier again,
/// in milliseconds.
pub const IDLE_POLL_MS: u64 = 100;

/// Counters of a crawl. Times are milliseconds on the caller's clock.
#[derive(Debug, Clone, Copy)]
pub struct CrawlStats {
    pub pages_crawled: usize,
    pub pages_failed: usize,
    pub total_links_found: usize,
    pub start_time: Option<u64>,
    pub end_time: Option<u64>,
}

impl CrawlStats {
    /// The counters of a crawl that has not begun.
    pub open spec fn zero() -> CrawlStats {
        CrawlStats {
            pages_crawled: 0,
            pages_failed: 0,
            total_links_found: 0,
            start_time: None,
            end_time: None,
        }
    }

    /// The time from start to end, once both are set; zero where the end
    /// lies before the start.
    pub open spec fn elapsed(self) -> Option<u64> {
        match (self.start_time, self.end_time) {
            (Some(start), Some(end)) => Some(
                if end >= start {
                    (end - start) as u64
                } else {
                    0
                },
            ),
            _ => None,
        }
    }

    /// How long the crawl took, in milliseconds, once it has ended.
    pub fn duration(&self) -> (r: Option<u64>)
        ensures
            r == self.elapsed(),
    {
        match (self.start_time, self.end_time) {
            (Some(start), Some(end)) => Some(
                if end >= start {
                    end - start
                } else {
                    0
                },
            ),
            _ => None,
        }
    }
}

impl Default for CrawlStats {
    fn default() -> (r: Self)
        ensures
            r == CrawlStats::zero(),
    {
        CrawlStats {
            pages_crawled: 0,
            pages_failed: 0,
            total_links_found: 0,
            start_time: None,
            end_time: None,
        }
    }
}

/// The parameters of a crawl.
#[derive(Debug)]
pub struct CrawlerConfig {
    /// Workers stop once this many pages have been crawled.
    pub max_pages: usize,
    /// Tasks deeper than this are not fetched.
    pub max_depth: usize,
    /// The number of workers.
    pub max_concurrent: usize,
    /// The least time between two requests to one domain, in
    /// milliseconds.
    pub delay_ms: u64,
    pub user_agent: String,
    pub timeout_seconds: u64,
    pub max_page_size: usize,
}

impl Default for CrawlerConfig {
    fn default() -> (r: Self)
        ensures
            r.max_pages == 1000,
            r.max_depth == 5,
            r.max_concurrent == 10,
            r.delay_ms == 1000,
            r.user_agent@ == "RustCrawler/0.1.0"@,
            r.timeout_seconds == 30,
            r.max_page_size == 10 * 1024 * 1024,
            r.is_valid(),
    {
        CrawlerConfig {
            max_pages: 1000,
            max_depth: 5,
            max_concurrent: 10,
            delay_ms: 1000,
            user_agent: "RustCrawler/0.1.0".to_owned(),
            timeout_seconds: 30,
            max_page_size: 10 * 1024 * 1024,
        }
    }
}

impl Clone for CrawlerConfig {
    fn clone(&self) -> (r: Self)
        ensures
            r == *self,
    {
        CrawlerConfig {
            max_pages: self.max_pages,
            max_depth: self.max_depth,
            max_concurrent: self.max_concurrent,
            delay_ms: self.delay_ms,
            user_agent: self.user_agent.clone(),
            timeout_seconds: self.timeout_seconds,
            max_page_size: self.max_page_size,
        }
    }
}

impl CrawlerConfig {
    /// Whether a crawler can be made of this configuration: the frontier
    /// holds twice `max_pages` tasks, and that number has to be one the
    /// machine can count to.
    pub open spec fn is_valid(&self) -> bool {
        self.max_pages * 2 <= usize::MAX
    }

    /// Checks the configuration; see [`CrawlerConfig::is_valid`].
    pub fn validate(&self) -> (r: Result<(), Error>)
        ensures
            match r {
                Ok(_) => self.is_valid(),
                Err(e) => {
                    &&& !self.is_valid()
                    &&& e matches Error::ConfigError(m)
                    &&& m@ == "max_pages is too large"@
                },
            },
    {
        if self.max_pages <= usize::MAX / 2 {
            Ok(())
        } else {
            Err(Error::ConfigError("max_pages is too large".to_owned()))
        }
    }
}

/// Where a worker stands.
#[derive(Debug, Clone, Copy, PartialEq, Eq, Structural)]
pub enum WorkerState {
    /// About to take a task.
    Running,
    /// Found the frontier empty, and is to look again after a sleep.
    IdlePolling,
    /// Done for good.
    Stopped,
}

/// What a worker has to do after a turn of [`Crawler::worker_loop`].
#[derive(Debug)]
pub enum WorkerAction {
    /// End: the worker has stopped.
    Stop,
    /// Sleep for so many milliseconds, then take the next turn.
    Sleep(u64),
    /// Take the next turn at once.
    Continue,
    /// Crawl the task handed out, then take the next turn.
    Process(CrawlTask),
}

/// The mathematical value of a [`WorkerAction`].
pub enum ActionView {
    Stop,
    Sleep(u64),
    Continue,
    Process(TaskView),
}

impl View for WorkerAction {
    type V = ActionView;

    open spec fn view(&self) -> ActionView {
        match self {
            WorkerAction::Stop => ActionView::Stop,
            WorkerAction::Sleep(ms) => ActionView::Sleep(*ms),
            WorkerAction::Continue => ActionView::Continue,
            WorkerAction::Process(task) => ActionView::Process(task@),
        }
    }
}

/// What a worker has to do with a task in flight before it fetches it.
#[derive(Debug)]
pub enum FetchPlan {
    /// Fetch the `robots.txt` at this address, and ask again with the
    /// outcome.
    FetchRobots(Address),
    /// Drop the task: it is out of flight already.
    Discard,
    /// Wait for so many milliseconds, then fetch the address of the task.
    Fetch(u64),
}

/// The mathematical value of a [`FetchPlan`].
pub enum PlanView {
    FetchRobots(AddressView),
    Discard,
    Fetch(u64),
}

impl View for FetchPlan {
    type V = PlanView;

    open spec fn view(&self) -> PlanView {
        match self {
            FetchPlan::FetchRobots(at) => PlanView::FetchRobots(at@),
            FetchPlan::Discard => PlanView::Discard,
            FetchPlan::Fetch(ms) => PlanView::Fetch(*ms),
        }
    }
}

/// The state that the workers share, as far as their decisions depend on
/// it.
pub struct CrawlerView {
    pub max_pages: nat,
    pub max_depth: nat,
    pub frontier: FrontierView,
    pub stats: CrawlStats,
    /// The number of tasks handed out and not yet finished.
    pub in_flight: nat,
}

/// `links`, each with the depth `depth`.
pub open spec fn links_at(links: Seq<AddressView>, depth: nat) -> Seq<(AddressView, nat)> {
    links.map_values(|a: AddressView| (a, depth))
}

impl CrawlerView {
    /// What holds of the shared state at all times: the frontier is
    /// well-formed and has never been retried into, and every page
    /// counted as crawled or failed, and every task in flight, is a task
    /// that was popped from the frontier.
    pub open spec fn wf(self) -> bool {
        &&& self.frontier.wf()
        &&& self.frontier.retried == 0
        &&& self.stats.pages_crawled + self.stats.pages_failed + self.in_flight
            <= self.frontier.popped
    }

    /// Whether the page budget is used up.
    pub open spec fn budget_spent(self) -> bool {
        self.stats.pages_crawled >= self.max_pages
    }

    /// Whether nothing is left to do: the frontier is empty and no task is
    /// in flight, so that no link can still arrive.
    pub open spec fn exhausted(self) -> bool {
        self.frontier.queue.len() == 0 && self.in_flight == 0
    }

    /// The state of a worker after a turn begun in `state`.
    pub open spec fn next_state(self, state: WorkerState) -> WorkerState {
        if state == WorkerState::Stopped || self.budget_spent() {
            WorkerState::Stopped
        } else if state == WorkerState::Running {
            if self.frontier.queue.len() == 0 {
                WorkerState::IdlePolling
            } else {
                WorkerState::Running
            }
        } else if self.exhausted() {
            WorkerState::Stopped
        } else {
            WorkerState::Running
        }
    }

    /// What a worker has to do after a turn begun in `state`.
    pub open spec fn next_action(self, state: WorkerState) -> ActionView {
        if state == WorkerState::Stopped || self.budget_spent() {
            ActionView::Stop
        } else if state == WorkerState::Running {
            if self.frontier.queue.len() == 0 {
                ActionView::Sleep(IDLE_POLL_MS)
            } else if self.frontier.queue[0].depth > self.max_depth {
                ActionView::Continue
            } else {
                ActionView::Process(self.frontier.queue[0])
            }
        } else if self.exhausted() {
            ActionView::Stop
        } else {
            ActionView::Continue
        }
    }

    /// The shared state after a turn begun in `state`: a running worker
    /// within budget pops the oldest task, and the task is in flight
    /// unless it lies too deep; every other turn changes nothing.
    pub open spec fn after_turn(self, state: WorkerState) -> CrawlerView {
        if state == WorkerState::Running && !self.budget_spent() && self.frontier.queue.len() > 0 {
            CrawlerView {
                frontier: self.frontier.pop(),
                in_flight: if self.frontier.queue[0].depth > self.max_depth {
                    self.in_flight
                } else {
                    self.in_flight + 1
                },
                ..self
            }
        } else {
            self
        }
    }

    /// The shared state after the crawl was begun at `now`.
    pub open spec fn after_begin(self, now: u64) -> CrawlerView {
        CrawlerView { stats: CrawlStats { start_time: Some(now), ..self.stats }, ..self }
    }

    /// The shared state after the crawl was ended at `now`.
    pub open spec fn after_end(self, now: u64) -> CrawlerView {
        CrawlerView { stats: CrawlStats { end_time: Some(now), ..self.stats }, ..self }
    }

    /// The shared state after a seed was offered: one that is worth
    /// fetching is offered to the frontier at depth 0.
    pub open spec fn after_seed(self, url: AddressView) -> CrawlerView {
        if worth_fetching(url) {
            CrawlerView { frontier: self.frontier.add(url, 0), ..self }
        } else {
            self
        }
    }

    /// The shared state after a task was given up, or a page could not be
    /// counted.
    pub open spec fn after_discard(self) -> CrawlerView {
        CrawlerView { in_flight: (self.in_flight - 1) as nat, ..self }
    }

    /// The shared state after a fetch failed.
    pub open spec fn after_failure(self) -> CrawlerView {
        CrawlerView {
            stats: CrawlStats {
                pages_failed: (self.stats.pages_failed + 1) as usize,
                ..self.stats
            },
            in_flight: (self.in_flight - 1) as nat,
            ..self
        }
    }

    /// Whether the links of a page can still be counted.
    pub open spec fn can_count(self, page_links: Seq<AddressView>) -> bool {
        self.stats.total_links_found + crawlable(page_links).len() <= usize::MAX
    }

    /// The shared state after a page at depth `depth` with the links
    /// `page_links` was crawled: those of its links that are worth
    /// crawling are offered to the frontier one level deeper, in their
    /// order, and the page and those links are counted.
    pub open spec fn after_page(self, depth: nat, page_links: Seq<AddressView>) -> CrawlerView {
        CrawlerView {
            frontier: self.frontier.add_many(links_at(crawlable(page_links), depth + 1)),
            stats: CrawlStats {
                pages_crawled: (self.stats.pages_crawled + 1) as usize,
                total_links_found: (self.stats.total_links_found + crawlable(page_links).len()) as usize,
                ..self.stats
            },
            in_flight: (self.in_flight - 1) as nat,
            ..self
        }
    }
}

/// Depth gating: the task that a worker is told to crawl is never deeper
/// than `max_depth`.
pub proof fn lemma_depth_gate(c: CrawlerView, state: WorkerState)
    ensures
        c.next_action(state) matches ActionView::Process(task) ==> task.depth <= c.max_depth,
{
}

/// Termination: with a budget of no pages, every worker stops on its
/// first turn, whatever the frontier holds, and nothing is popped or
/// counted.
pub proof fn lemma_zero_budget(c: CrawlerView, state: WorkerState)
    requires
        c.max_pages == 0,
    ensures
        c.next_state(state) == WorkerState::Stopped,
        c.next_action(state) == ActionView::Stop,
        c.after_turn(state) == c,
{
}

/// Termination: with the budget used up, a worker stops at once and
/// changes nothing.
pub proof fn lemma_budget_stops(c: CrawlerView, state: WorkerState)
    requires
        c.budget_spent(),
    ensures
        c.next_state(state) == WorkerState::Stopped,
        c.next_action(state) == ActionView::Stop,
        c.after_turn(state) == c,
{
}

/// Termination: a worker that finds the frontier empty sleeps once and,
/// if the frontier is still empty and no task is in flight, stops. No
/// page is counted on the way.
pub proof fn lemma_exhausted_stops(c: CrawlerView)
    requires
        c.exhausted(),
    ensures
        c.next_state(WorkerState::Running) == WorkerState::Stopped || (c.next_state(
            WorkerState::Running,
        ) == WorkerState::IdlePolling && c.next_action(WorkerState::Running) == ActionView::Sleep(
            IDLE_POLL_MS,
        )),
        c.after_turn(WorkerState::Running) == c,
        c.next_state(WorkerState::IdlePolling) == WorkerState::Stopped,
        c.next_action(WorkerState::IdlePolling) == ActionView::Stop,
        c.after_turn(WorkerState::IdlePolling) == c,
{
}

/// Termination: an idle worker does not stop while a task is in flight
/// or queued, unless the budget is used up.
pub proof fn lemma_idle_waits_for_flight(c: CrawlerView)
    requires
        !c.exhausted(),
        !c.budget_spent(),
    ensures
        c.next_state(WorkerState::IdlePolling) == WorkerState::Running,
        c.next_action(WorkerState::IdlePolling) == ActionView::Continue,
{
}

/// Stopped is final.
pub proof fn lemma_stopped_stays(c: CrawlerView)
    ensures
        c.next_state(WorkerState::Stopped) == WorkerState::Stopped,
        c.next_action(WorkerState::Stopped) == ActionView::Stop,
        c.after_turn(WorkerState::Stopped) == c,
{
}

/// Stats consistency: the pages counted as crawled and as failed are
/// together no more than the tasks popped from the frontier.
pub proof fn lemma_stats_consistent(c: CrawlerView)
    requires
        c.wf(),
    ensures
        c.stats.pages_crawled + c.stats.pages_failed <= c.frontier.popped,
{
}

/// A turn keeps the shared state well-formed.
pub proof fn lemma_turn_wf(c: CrawlerView, state: WorkerState)
    requires
        c.wf(),
    ensures
        c.after_turn(state).wf(),
{
}

/// Offering addresses to a frontier changes neither its capacity nor its
/// counts of popped and retried tasks, and keeps it well-formed.
pub proof fn lemma_add_many_keeps(m: FrontierView, items: Seq<(AddressView, nat)>)
    requires
        m.wf(),
    ensures
        m.add_many(items).wf(),
        m.add_many(items).capacity == m.capacity,
        m.add_many(items).popped == m.popped,
        m.add_many(items).retried == m.retried,
    decreases items.len(),
{
    if items.len() > 0 {
        lemma_add_many_keeps(m.add(items[0].0, items[0].1), items.skip(1));
    }
}

/// The crawl orchestrator.
pub struct Crawler {
    config: CrawlerConfig,
    frontier: UrlFrontier,
    fetcher: Fetcher,
    parser: Parser,
    robots: RobotsChecker,
    limiter: PolitenessLimiter,
    stats: CrawlStats,
    in_flight: usize,
}

impl View for Crawler {
    type V = CrawlerView;

    closed spec fn view(&self) -> CrawlerView {
        CrawlerView {
            max_pages: self.config.max_pages as nat,
            max_depth: self.config.max_depth as nat,
            frontier: self.frontier@,
            stats: self.stats,
            in_flight: self.in_flight as nat,
        }
    }
}

impl Crawler {
    /// The invariant of the crawler; see [`CrawlerView::wf`].
    pub closed spec fn wf(&self) -> bool {
        self@.wf() && self.frontier.wf()
    }

    /// The configuration the crawler was made with.
    pub closed spec fn config(&self) -> CrawlerConfig {
        self.config
    }

    /// The robots checker.
    pub closed spec fn robots(&self) -> RobotsChecker {
        self.robots
    }

    /// The politeness limiter.
    pub closed spec fn limiter(&self) -> PolitenessLimiter {
        self.limiter
    }

    /// The page parser.
    pub closed spec fn parser(&self) -> Parser {
        self.parser
    }

    /// The settings of the HTTP client.
    pub closed spec fn fetcher(&self) -> Fetcher {
        self.fetcher
    }

    /// Whether `post` has the configuration, the parser and the fetcher
    /// settings of `pre`.
    pub open spec fn same_setup(pre: Crawler, post: Crawler) -> bool {
        &&& post.config() == pre.config()
        &&& post.parser() == pre.parser()
        &&& post.fetcher() == pre.fetcher()
    }

    /// Whether `post` has the robots checker and the politeness limiter
    /// of `pre`, unchanged.
    pub open spec fn same_services(pre: Crawler, post: Crawler) -> bool {
        &&& post.robots() == pre.robots()
        &&& post.limiter() == pre.limiter()
    }

    /// Well-formedness of the crawler is well-formedness of its value.
    pub proof fn lemma_wf(&self)
        requires
            self.wf(),
        ensures
            self@.wf(),
            self@.max_pages == self.config().max_pages,
            self@.max_depth == self.config().max_depth,
    {
    }

    /// Whether `made` is the crawler that is made for `config`: it has
    /// seen no address, counted no page, granted no dispatch time and
    /// cached no rules; its frontier holds up to twice `max_pages` tasks;
    /// its limiter spaces requests by `delay_ms`; its robots checker and
    /// its fetcher go by `user_agent`, the fetcher with the timeout and
    /// the size cap of `config`; its parser takes links from `a`
    /// elements and the title from `title`.
    pub open spec fn made_for(made: Crawler, config: CrawlerConfig) -> bool {
        &&& made.config() == config
        &&& made@ == (CrawlerView {
            max_pages: config.max_pages as nat,
            max_depth: config.max_depth as nat,
            frontier: FrontierView::empty((config.max_pages * 2) as nat),
            stats: CrawlStats::zero(),
            in_flight: 0,
        })
        &&& made.limiter().record() == Map::<Seq<char>, u64>::empty()
        &&& made.limiter().min_delay() == config.delay_ms
        &&& made.robots().cache() == Map::<Seq<char>, RobotsCache>::empty()
        &&& made.robots().user_agent() == config.user_agent@
        &&& made.robots().cache_duration() == CACHE_TTL_MS
        &&& made.fetcher().user_agent()@ == config.user_agent@
        &&& made.fetcher().timeout_seconds() == config.timeout_seconds
        &&& made.fetcher().max_size() == config.max_page_size
        &&& made.parser().link_selector() == "a[href]"@
        &&& made.parser().title_selector() == "title"@
    }

    /// A crawler for `config`; see [`Crawler::made_for`].
    pub fn new(config: CrawlerConfig) -> (r: Self)
        requires
            config.is_valid(),
        ensures
            r.wf(),
            Self::made_for(r, config),
    {
        let frontier = UrlFrontier::new(config.max_pages * 2);
        let fetcher = Fetcher::new(
            config.user_agent.clone(),
            config.timeout_seconds,
            config.max_page_size,
        );
        let parser = Parser::new();
        let robots = RobotsChecker::new(config.user_agent.clone());
        let limiter = PolitenessLimiter::new(config.delay_ms);
        Crawler {
            config,
            frontier,
            fetcher,
            parser,
            robots,
            limiter,
            stats: CrawlStats::default(),
            in_flight: 0,
        }
    }

    /// Puts a seed into the frontier, at depth 0. An address that is not
    /// worth fetching is an error; one that the frontier does not admit
    /// is dropped in silence.
    pub fn add_seed(&mut self, url: Address) -> (r: Result<(), Error>)
        requires
            old(self).wf(),
        ensures
            final(self).wf(),
            Self::same_setup(*old(self), *final(self)),
            Self::same_services(*old(self), *final(self)),
            final(self)@ == old(self)@.after_seed(url@),
            if worth_fetching(url@) {
                r is Ok
            } else {
                r matches Err(Error::InvalidResponse(m)) && m@ == "Invalid seed URL"@
            },
    {
        if !Fetcher::should_fetch(&url) {
            return Err(Error::InvalidResponse("Invalid seed URL".to_owned()));
        }
        self.frontier.add(url, 0);
        Ok(())
    }

    /// Begins the crawl at the time `now`, and returns the number of
    /// workers to run.
    pub fn crawl(&mut self, now: u64) -> (workers: usize)
        requires
            old(self).wf(),
        ensures
            final(self).wf(),
            workers == old(self).config().max_concurrent,
            Self::same_setup(*old(self), *final(self)),
            Self::same_services(*old(self), *final(self)),
            final(self)@ == old(self)@.after_begin(now),
    {
        self.stats.start_time = Some(now);
        self.config.max_concurrent
    }

    /// Ends the crawl at the time `now`, once every worker has stopped,
    /// and returns the final statistics.
    pub fn finish(&mut self, now: u64) -> (stats: CrawlStats)
        requires
            old(self).wf(),
        ensures
            final(self).wf(),
            stats == old(self)@.after_end(now).stats,
            Self::same_setup(*old(self), *final(self)),
            Self::same_services(*old(self), *final(self)),
            final(self)@ == old(self)@.after_end(now),
    {
        self.stats.end_time = Some(now);
        self.stats
    }

    /// The statistics as they stand.
    pub fn get_stats(&self) -> (stats: CrawlStats)
        ensures
            stats == self@.stats,
    {
        self.stats
    }

    /// The configuration the crawler was made with.
    pub fn get_config(&self) -> (r: &CrawlerConfig)
        ensures
            *r == self.config(),
    {
        &self.config
    }

    /// The settings of the HTTP client.
    pub fn get_fetcher(&self) -> (r: &Fetcher)
        ensures
            *r == self.fetcher(),
    {
        &self.fetcher
    }

    /// The settings with which `robots.txt` is to be fetched; see
    /// [`RobotsChecker::fetcher`].
    pub fn robots_fetcher(&self) -> (r: Fetcher)
        ensures
            r.user_agent()@ == self.robots().user_agent(),
            r.timeout_seconds() == ROBOTS_TIMEOUT_SECONDS,
            r.max_size() == ROBOTS_MAX_SIZE,
    {
        self.robots.fetcher()
    }

    /// The page parser.
    pub fn get_parser(&self) -> (r: &Parser)
        ensures
            *r == self.parser(),
    {
        &self.parser
    }

    /// The sizes of the frontier.
    pub fn frontier_stats(&self) -> (s: FrontierStats)
        ensures
            s.queue_size == self@.frontier.queue.len(),
            s.seen_count == self@.frontier.seen.len(),
            s.max_size == self@.frontier.capacity,
    {
        self.frontier.stats()
    }

    /// The number of tasks handed out and not yet finished.
    pub fn in_flight(&self) -> (n: usize)
        ensures
            n == self@.in_flight,
    {
        self.in_flight
    }

    /// One turn of a worker that stands in `state`: the state it is in
    /// afterwards, and what it has to do before its next turn.
    ///
    /// A stopped worker stays stopped. A worker stops once
    /// `pages_crawled` has reached `max_pages`, whatever the frontier
    /// holds. Otherwise a running worker pops the oldest task; a task
    /// deeper than `max_depth` is discarded, any other is handed out and
    /// is in flight from then on. Where the frontier is empty the worker
    /// becomes idle and is told to sleep. An idle worker stops if the
    /// frontier is still empty and no task is in flight; otherwise it
    /// runs again.
    pub fn worker_loop(&mut self, state: WorkerState) -> (r: (WorkerState, WorkerAction))
        requires
            old(self).wf(),
        ensures
            final(self).wf(),
            Self::same_setup(*old(self), *final(self)),
            Self::same_services(*old(self), *final(self)),
            r.0 == old(self)@.next_state(state),
            r.1@ == old(self)@.next_action(state),
            final(self)@ == old(self)@.after_turn(state),
            r.1 matches WorkerAction::Process(task) ==> task.depth <= old(self).config().max_depth
                && final(self)@.in_flight > 0,
    {
        if state == WorkerState::Stopped || self.stats.pages_crawled >= self.config.max_pages {
            return (WorkerState::Stopped, WorkerAction::Stop);
        }
        if state == WorkerState::IdlePolling {
            if self.frontier.is_empty() && self.in_flight == 0 {
                return (WorkerState::Stopped, WorkerAction::Stop);
            }
            return (WorkerState::Running, WorkerAction::Continue);
        }
        proof {
            // By the invariant no counter is larger than the seen set,
            // whose size the machine can count.
            self.frontier.lemma_seen_fits();
        }
        match self.frontier.pop() {
            None => (WorkerState::IdlePolling, WorkerAction::Sleep(IDLE_POLL_MS)),
            Some(task) => {
                if task.depth > self.config.max_depth {
                    (WorkerState::Running, WorkerAction::Continue)
                } else {
                    self.in_flight = self.in_flight + 1;
                    (WorkerState::Running, WorkerAction::Process(task))
                }
            },
        }
    }

    /// Asks the robots checker whether `url` may be fetched; see
    /// [`RobotsChecker::is_allowed`].
    pub fn is_allowed(
        &mut self,
        url: &Address,
        fetched: Option<Result<FetchResponse, Error>>,
        now: u64,
    ) -> (r: Result<RobotsAnswer<bool>, Error>)
        requires
            old(self).wf(),
        ensures
            final(self).wf(),
            final(self)@ == old(self)@,
            Self::same_setup(*old(self), *final(self)),
            final(self).limiter() == old(self).limiter(),
            RobotsChecker::refreshed(old(self).robots(), final(self).robots(), url@, fetched, now),
            RobotsChecker::answered(
                old(self).robots().consult(url@, fetched, now),
                |rules: RulesView| rules.allows(url@.path),
                r,
            ),
            old(self).robots().fails_open(url@, fetched, now) ==> r == Ok::<
                RobotsAnswer<bool>,
                Error,
            >(RobotsAnswer::Ready(true)),
    {
        self.robots.is_allowed(url, fetched, now)
    }

    /// Asks the politeness limiter for a dispatch time for a request to
    /// `url`, and returns how long to wait for it, in milliseconds; see
    /// [`PolitenessLimiter::wait`].
    pub fn apply_rate_limit(&mut self, url: &Address, now: u64) -> (r: Result<u64, Error>)
        requires
            old(self).wf(),
        ensures
            final(self).wf(),
            final(self)@ == old(self)@,
            Self::same_setup(*old(self), *final(self)),
            final(self).robots() == old(self).robots(),
            PolitenessLimiter::granted(old(self).limiter(), final(self).limiter(), url@, now, r),
            r is Ok ==> PolitenessLimiter::spaced(old(self).limiter(), final(self).limiter(), url@),
    {
        self.limiter.wait(url, now)
    }

    /// Whether `post` differs from `pre` only in that a task was given
    /// up, and `plan` says so.
    pub open spec fn gave_up(pre: Crawler, post: Crawler, plan: PlanView) -> bool {
        &&& plan == PlanView::Discard
        &&& post@ == pre@.after_discard()
        &&& post.limiter().record() == pre.limiter().record()
    }

    /// What `before_fetch` decides for a task at `url`: `pre` is the
    /// crawler before the call, `post` the crawler after it.
    ///
    /// The robots checker is consulted first. An address without a
    /// domain is given up. Where `robots.txt` has to be fetched, that is
    /// the plan, unless its address cannot be made, in which case the
    /// task is given up. Where the rules are at hand and deny the path,
    /// the task is given up. Where they allow it, the politeness limiter
    /// grants a dispatch time and records it, and the plan is to fetch
    /// after the wait for it; a time beyond what the clock can count
    /// gives the task up.
    pub open spec fn planned(
        pre: Crawler,
        post: Crawler,
        url: AddressView,
        robots_txt: Option<Result<FetchResponse, Error>>,
        now: u64,
        plan: PlanView,
    ) -> bool {
        match pre.robots().consult(url, robots_txt, now) {
            Consulted::NoDomain => Self::gave_up(pre, post, plan),
            Consulted::AskFetch(location) => match url_parse(location) {
                Some(at) => {
                    &&& plan == PlanView::FetchRobots(at)
                    &&& post@ == pre@
                    &&& post.limiter().record() == pre.limiter().record()
                },
                None => Self::gave_up(pre, post, plan),
            },
            Consulted::Rules(rules) => {
                let domain = url.domain.unwrap();
                let time = dispatch_time(
                    last_dispatch(pre.limiter().record(), domain),
                    now,
                    pre.limiter().min_delay(),
                );
                if rules.allows(url.path) && time <= u64::MAX {
                    &&& plan == PlanView::Fetch((time - now) as u64)
                    &&& post@ == pre@
                    &&& post.limiter().record() == pre.limiter().record().insert(
                        domain,
                        time as u64,
                    )
                } else {
                    Self::gave_up(pre, post, plan)
                }
            },
        }
    }

    /// Decides what to do with a task in flight before it is fetched:
    /// the robots check comes first, the politeness limiter second; see
    /// [`Crawler::planned`]. `robots_txt` is the outcome of the fetch
    /// that an earlier call asked for, if any.
    pub fn before_fetch(
        &mut self,
        task: &CrawlTask,
        robots_txt: Option<Result<FetchResponse, Error>>,
        now: u64,
    ) -> (plan: FetchPlan)
        requires
            old(self).wf(),
            old(self)@.in_flight > 0,
        ensures
            final(self).wf(),
            Self::same_setup(*old(self), *final(self)),
            final(self).limiter().min_delay() == old(self).limiter().min_delay(),
            RobotsChecker::refreshed(
                old(self).robots(),
                final(self).robots(),
                task@.url,
                robots_txt,
                now,
            ),
            Self::planned(*old(self), *final(self), task@.url, robots_txt, now, plan@),
    {
        match self.robots.is_allowed(&task.url, robots_txt, now) {
            Ok(RobotsAnswer::Fetch(at)) => FetchPlan::FetchRobots(at),
            Ok(RobotsAnswer::Ready(true)) => match self.limiter.wait(&task.url, now) {
                Ok(wait) => FetchPlan::Fetch(wait),
                Err(_) => {
                    self.in_flight = self.in_flight - 1;
                    FetchPlan::Discard
                },
            },
            Ok(RobotsAnswer::Ready(false)) => {
                self.in_flight = self.in_flight - 1;
                FetchPlan::Discard
            },
            Err(_) => {
                self.in_flight = self.in_flight - 1;
                FetchPlan::Discard
            },
        }
    }

    /// Gives up a task that was handed out: it is no longer in flight,
    /// and nothing is counted.
    pub fn discard_task(&mut self)
        requires
            old(self).wf(),
            old(self)@.in_flight > 0,
        ensures
            final(self).wf(),
            final(self)@ == old(self)@.after_discard(),
            Self::same_setup(*old(self), *final(self)),
            Self::same_services(*old(self), *final(self)),
    {
        self.in_flight = self.in_flight - 1;
    }

    /// Counts a page as crawled, with the number of links found on it,
    /// and takes its task out of flight.
    fn update_stats_success(&mut self, links_found: usize)
        requires
            old(self).wf(),
            old(self)@.in_flight > 0,
            old(self)@.stats.total_links_found + links_found <= usize::MAX,
        ensures
            final(self).wf(),
            final(self)@ == (CrawlerView {
                stats: CrawlStats {
                    pages_crawled: (old(self)@.stats.pages_crawled + 1) as usize,
                    total_links_found: (old(self)@.stats.total_links_found + links_found) as usize,
                    ..old(self)@.stats
                },
                in_flight: (old(self)@.in_flight - 1) as nat,
                ..old(self)@
            }),
            Self::same_setup(*old(self), *final(self)),
            Self::same_services(*old(self), *final(self)),
    {
        proof {
            self.frontier.lemma_seen_fits();
        }
        self.stats.pages_crawled = self.stats.pages_crawled + 1;
        self.stats.total_links_found = self.stats.total_links_found + links_found;
        self.in_flight = self.in_flight - 1;
    }

    /// Counts a page as failed, and takes its task out of flight.
    fn update_stats_failed(&mut self)
        requires
            old(self).wf(),
            old(self)@.in_flight > 0,
        ensures
            final(self).wf(),
            final(self)@ == old(self)@.after_failure(),
            Self::same_setup(*old(self), *final(self)),
            Self::same_services(*old(self), *final(self)),
    {
        proof {
            self.frontier.lemma_seen_fits();
        }
        self.stats.pages_failed = self.stats.pages_failed + 1;
        self.in_flight = self.in_flight - 1;
    }

    /// Takes in the page of a task in flight: offers its links to the
    /// frontier one level deeper, counts the page and the links, and
    /// takes the task out of flight.
    ///
    /// Where the links can no longer be counted, the task is taken out of
    /// flight and nothing else is done.
    pub fn record_page(&mut self, task: &CrawlTask, page: ParsedPage) -> (r: Result<(), Error>)
        requires
            old(self).wf(),
            old(self)@.in_flight > 0,
            task.depth < usize::MAX,
        ensures
            final(self).wf(),
            Self::same_setup(*old(self), *final(self)),
            Self::same_services(*old(self), *final(self)),
            if old(self)@.can_count(page@.links) {
                &&& r is Ok
                &&& final(self)@ == old(self)@.after_page(task@.depth, page@.links)
            } else {
                &&& r matches Err(Error::Unknown(m))
                &&& m@ == "too many links to count"@
                &&& final(self)@ == old(self)@.after_discard()
            },
    {
        let links = self.parser.filter_links(page.links);
        let links_count: usize = links.len();
        if links_count > usize::MAX - self.stats.total_links_found {
            self.discard_task();
            return Err(Error::Unknown("too many links to count".to_owned()));
        }
        let new_depth: usize = task.depth + 1;
        let new_links = with_depth(links, new_depth);
        proof {
            lemma_add_many_keeps(self@.frontier, task_items(new_links@));
        }
        self.frontier.add_many(new_links);
        self.update_stats_success(links_count);
        Ok(())
    }

    /// Takes in what the fetch for a task in flight brought back.
    ///
    /// A failed fetch is counted as a failed page, and its error is
    /// returned. A response is parsed and handed to
    /// [`Crawler::record_page`]. In every case the task is out of flight
    /// afterwards.
    pub fn process_url(&mut self, task: CrawlTask, response: Result<FetchResponse, Error>) -> (r:
        Result<(), Error>)
        requires
            old(self).wf(),
            old(self)@.in_flight > 0,
            task.depth < usize::MAX,
        ensures
            final(self).wf(),
            Self::same_setup(*old(self), *final(self)),
            Self::same_services(*old(self), *final(self)),
            match response {
                Err(e) => {
                    &&& r == Err::<(), Error>(e)
                    &&& final(self)@ == old(self)@.after_failure()
                },
                Ok(found) => {
                    let links = assemble_page(
                        scrape(
                            found.body@,
                            old(self).parser().title_selector(),
                            old(self).parser().link_selector(),
                            "href"@,
                        ),
                        found.url@.text,
                    ).links;
                    if old(self)@.can_count(links) {
                        &&& r is Ok
                        &&& final(self)@ == old(self)@.after_page(task@.depth, links)
                    } else {
                        &&& r matches Err(Error::Unknown(m))
                        &&& m@ == "too many links to count"@
                        &&& final(self)@ == old(self)@.after_discard()
                    }
                },
            },
    {
        let found = match response {
            Ok(found) => found,
            Err(e) => {
                self.update_stats_failed();
                return Err(e);
            },
        };
        match self.parser.parse(found.body.as_str(), &found.url) {
            Ok(page) => self.record_page(&task, page),
            Err(e) => {
                self.discard_task();
                Err(e)
            },
        }
    }
}

/// `links`, each paired with `depth`.
fn with_depth(links: Vec<Address>, depth: usize) -> (items: Vec<(Address, usize)>)
    ensures
        task_items(items@) == links_at(address_views(links@), depth as nat),
{
    let ghost all = links@;
    let mut items: Vec<(Address, usize)> = Vec::new();
    for link in it: links.into_iter()
        invariant
            it.seq() == all,
            items@.len() == it.index(),
            forall|k: int|
                0 <= k < items@.len() ==> (#[trigger] items@[k]).0@ == all[k]@ && items@[k].1
                    == depth,
    {
        let ghost before = items@;
        items.push((link, depth));
        assert forall|k: int| 0 <= k < items@.len() implies (#[trigger] items@[k]).0@ == all[k]@
            && items@[k].1 == depth by {
            if k < before.len() {
            }
        }
    }
    items
}

/// Assembles a configuration step by step.
pub struct CrawlerBuilder {
    config: CrawlerConfig,
}

impl CrawlerBuilder {
    /// The configuration assembled so far.
    pub closed spec fn config(&self) -> CrawlerConfig {
        self.config
    }

    /// A builder that starts from the default configuration.
    pub fn new() -> (r: Self)
        ensures
            r.config().max_pages == 1000,
            r.config().max_depth == 5,
            r.config().max_concurrent == 10,
            r.config().delay_ms == 1000,
            r.config().user_agent@ == "RustCrawler/0.1.0"@,
            r.config().timeout_seconds == 30,
            r.config().max_page_size == 10 * 1024 * 1024,
    {
        CrawlerBuilder { config: CrawlerConfig::default() }
    }

    /// Sets the page budget.
    pub fn max_pages(self, max: usize) -> (r: Self)
        ensures
            r.config() == (CrawlerConfig { max_pages: max, ..self.config() }),
    {
        let mut next = self;
        next.config.max_pages = max;
        next
    }

    /// Sets the depth beyond which tasks are not fetched.
    pub fn max_depth(self, depth: usize) -> (r: Self)
        ensures
            r.config() == (CrawlerConfig { max_depth: depth, ..self.config() }),
    {
        let mut next = self;
        next.config.max_depth = depth;
        next
    }

    /// Sets the number of workers.
    pub fn max_concurrent(self, concurrent: usize) -> (r: Self)
        ensures
            r.config() == (CrawlerConfig { max_concurrent: concurrent, ..self.config() }),
    {
        let mut next = self;
        next.config.max_concurrent = concurrent;
        next
    }

    /// Sets the least time between two requests to one domain, in
    /// milliseconds.
    pub fn delay_ms(self, delay: u64) -> (r: Self)
        ensures
            r.config() == (CrawlerConfig { delay_ms: delay, ..self.config() }),
    {
        let mut next = self;
        next.config.delay_ms = delay;
        next
    }

    /// Sets the user-agent string.
    pub fn user_agent(self, agent: String) -> (r: Self)
        ensures
            r.config() == (CrawlerConfig { user_agent: agent, ..self.config() }),
    {
        let mut next = self;
        next.config.user_agent = agent;
        next
    }

    /// Whether the configuration assembled so far makes a crawler.
    pub fn validate(&self) -> (r: Result<(), Error>)
        ensures
            match r {
                Ok(_) => self.config().is_valid(),
                Err(e) => {
                    &&& !self.config().is_valid()
                    &&& e matches Error::ConfigError(m)
                    &&& m@ == "max_pages is too large"@
                },
            },
    {
        self.config.validate()
    }

    /// The crawler for the configuration assembled; see
    /// [`Crawler::made_for`].
    pub fn build(self) -> (r: Crawler)
        requires
            self.config().is_valid(),
        ensures
            r.wf(),
            Crawler::made_for(r, self.config()),
    {
        Crawler::new(self.config)
    }
}

impl Default for CrawlerBuilder {
    fn default() -> (r: Self)
        ensures
            r.config().max_pages == 1000,
            r.config().max_depth == 5,
            r.config().max_concurrent == 10,
            r.config().delay_ms == 1000,
            r.config().user_agent@ == "RustCrawler/0.1.0"@,
            r.config().timeout_seconds == 30,
            r.config().max_page_size == 10 * 1024 * 1024,
    {
        CrawlerBuilder::new()
    }
}

} // verus!
