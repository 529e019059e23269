//! Whole runs of a crawl.
//!
//! The workers run in the caller's hands, but whatever they do comes to a
//! sequence of calls on the [`Crawler`](crate::crawler::crawler::Crawler),
//! and each call changes the shared state as its contract says. This
//! module takes such a sequence as a list of events and proves what holds
//! at its end: how the counters add up, and how much work there can be.

use crate::crawler::address::AddressView;
use crate::crawler::crawler::{links_at, CrawlerView, WorkerState};
use crate::crawler::frontier::FrontierView;
use crate::crawler::parser::crawlable;
use vstd::prelude::*;
use vstd::set_lib::lemma_len_subset;

verus! {

/// One call on the crawler, as far as the shared state goes.
pub enum CrawlEvent {
    /// `crawl` at this time.
    Begin(u64),
    /// `finish` at this time.
    End(u64),
    /// `add_seed` with this address.
    Seed(AddressView),
    /// `worker_loop` by a worker in this state.
    Turn(WorkerState),
    /// A task in flight was given up, by `before_fetch` or by
    /// `discard_task`.
    Discard,
    /// `process_url` with a fetch that failed.
    Failure,
    /// `process_url` or `record_page` with the page of a task at this
    /// depth, which has these links.
    Page(nat, Seq<AddressView>),
}

impl CrawlerView {
    /// Whether the call `event` may be made in this state: what ends a
    /// task needs a task in flight.
    pub open spec fn permits(self, event: CrawlEvent) -> bool {
        match event {
            CrawlEvent::Discard => self.in_flight > 0,
            CrawlEvent::Failure => self.in_flight > 0,
            CrawlEvent::Page(_, _) => self.in_flight > 0,
            _ => true,
        }
    }

    /// The shared state after the call `event`.
    pub open spec fn after(self, event: CrawlEvent) -> CrawlerView {
        match event {
            CrawlEvent::Begin(now) => self.after_begin(now),
            CrawlEvent::End(now) => self.after_end(now),
            CrawlEvent::Seed(url) => self.after_seed(url),
            CrawlEvent::Turn(state) => self.after_turn(state),
            CrawlEvent::Discard => self.after_discard(),
            CrawlEvent::Failure => self.after_failure(),
            CrawlEvent::Page(depth, links) => if self.can_count(links) {
                self.after_page(depth, links)
            } else {
                self.after_discard()
            },
        }
    }

    /// Whether each of `events` may be made when its turn comes.
    pub open spec fn lawful(self, events: Seq<CrawlEvent>) -> bool
        decreases events.len(),
    {
        events.len() == 0 || (self.permits(events[0]) && self.after(events[0]).lawful(
            events.skip(1),
        ))
    }

    /// The shared state after `events`, in order.
    pub open spec fn run(self, events: Seq<CrawlEvent>) -> CrawlerView
        decreases events.len(),
    {
        if events.len() == 0 {
            self
        } else {
            self.after(events[0]).run(events.skip(1))
        }
    }

    /// The number of pages among `events` that were taken in and counted.
    pub open spec fn pages_in(self, events: Seq<CrawlEvent>) -> nat
        decreases events.len(),
    {
        if events.len() == 0 {
            0
        } else {
            let here: nat = if events[0] matches CrawlEvent::Page(_, links) && self.can_count(
                links,
            ) {
                1
            } else {
                0
            };
            here + self.after(events[0]).pages_in(events.skip(1))
        }
    }
}

/// The number of failed fetches among `events`.
pub open spec fn failures_in(events: Seq<CrawlEvent>) -> nat
    decreases events.len(),
{
    if events.len() == 0 {
        0
    } else {
        let here: nat = if events[0] is Failure {
            1
        } else {
            0
        };
        here + failures_in(events.skip(1))
    }
}

/// The number of turns among `events` that popped a task.
pub open spec fn pops_in(c: CrawlerView, events: Seq<CrawlEvent>) -> nat
    decreases events.len(),
{
    if events.len() == 0 {
        0
    } else {
        (c.after(events[0]).frontier.popped - c.frontier.popped) as nat + pops_in(
            c.after(events[0]),
            events.skip(1),
        )
    }
}

/// The number of calls among `events` that end a task in flight.
pub open spec fn ends_in(events: Seq<CrawlEvent>) -> nat
    decreases events.len(),
{
    if events.len() == 0 {
        0
    } else {
        let here: nat = match events[0] {
            CrawlEvent::Discard => 1,
            CrawlEvent::Failure => 1,
            CrawlEvent::Page(_, _) => 1,
            _ => 0,
        };
        here + ends_in(events.skip(1))
    }
}

/// Whether every address that `events` offer to the frontier, as a seed
/// or as a link, has its text in `universe`.
pub open spec fn offers_within(events: Seq<CrawlEvent>, universe: Set<Seq<char>>) -> bool {
    forall|i: int|
        0 <= i < events.len() ==> match #[trigger] events[i] {
            CrawlEvent::Seed(url) => universe.contains(url.text),
            CrawlEvent::Page(_, links) => forall|k: int|
                0 <= k < links.len() ==> universe.contains((#[trigger] links[k]).text),
            _ => true,
        }
}

/// Offering addresses to a frontier only adds to its seen set, and only
/// texts of addresses offered.
pub proof fn lemma_add_many_seen(
    m: FrontierView,
    items: Seq<(AddressView, nat)>,
    universe: Set<Seq<char>>,
)
    requires
        m.wf(),
    ensures
        m.add_many(items).wf(),
        m.add_many(items).popped == m.popped,
        m.add_many(items).retried == m.retried,
        m.seen.subset_of(m.add_many(items).seen),
        m.seen.subset_of(universe) && (forall|k: int|
            0 <= k < items.len() ==> universe.contains((#[trigger] items[k]).0.text))
            ==> m.add_many(items).seen.subset_of(universe),
    decreases items.len(),
{
    if items.len() > 0 {
        let next = m.add(items[0].0, items[0].1);
        lemma_add_many_seen(next, items.skip(1), universe);
        if m.seen.subset_of(universe) && (forall|k: int|
            0 <= k < items.len() ==> universe.contains((#[trigger] items[k]).0.text)) {
            assert(universe.contains(items[0].0.text));
            assert forall|k: int| 0 <= k < items.skip(1).len() implies universe.contains(
                (#[trigger] items.skip(1)[k]).0.text,
            ) by {
                assert(items.skip(1)[k] == items[k + 1]);
            }
        }
    }
}

/// The links that are kept of a page are links of the page.
pub proof fn lemma_crawlable_within(links: Seq<AddressView>, universe: Set<Seq<char>>)
    requires
        forall|k: int| 0 <= k < links.len() ==> universe.contains((#[trigger] links[k]).text),
    ensures
        forall|k: int|
            0 <= k < crawlable(links).len() ==> universe.contains(
                (#[trigger] crawlable(links)[k]).text,
            ),
    decreases links.len(),
{
    if links.len() > 0 {
        assert forall|k: int| 0 <= k < links.drop_last().len() implies universe.contains(
            (#[trigger] links.drop_last()[k]).text,
        ) by {
            assert(links.drop_last()[k] == links[k]);
        }
        lemma_crawlable_within(links.drop_last(), universe);
        assert(universe.contains(links[links.len() - 1].text));
    }
}

/// One call keeps the shared state well-formed, never takes an address
/// out of the seen set, and never lowers the count of popped tasks.
pub proof fn lemma_after(c: CrawlerView, event: CrawlEvent, universe: Set<Seq<char>>)
    requires
        c.wf(),
        c.permits(event),
    ensures
        c.after(event).wf(),
        c.after(event).max_pages == c.max_pages,
        c.after(event).max_depth == c.max_depth,
        c.frontier.seen.subset_of(c.after(event).frontier.seen),
        c.frontier.popped <= c.after(event).frontier.popped,
        c.frontier.seen.subset_of(universe) && offers_within(seq![event], universe) ==> c.after(
            event,
        ).frontier.seen.subset_of(universe),
{
    let within = c.frontier.seen.subset_of(universe) && offers_within(seq![event], universe);
    if within {
        assert(seq![event][0] == event);
    }
    match event {
        CrawlEvent::Page(depth, links) => {
            if c.can_count(links) {
                let kept = crawlable(links);
                let items = links_at(kept, depth + 1);
                if within {
                    lemma_crawlable_within(links, universe);
                    assert forall|k: int| 0 <= k < items.len() implies universe.contains(
                        (#[trigger] items[k]).0.text,
                    ) by {
                        assert(items[k].0 == kept[k]);
                    }
                }
                lemma_add_many_seen(c.frontier, items, universe);
            }
        },
        _ => {},
    }
}

/// A run keeps the shared state well-formed, and its seen set and its
/// count of popped tasks only grow.
pub proof fn lemma_run_grows(c: CrawlerView, events: Seq<CrawlEvent>)
    requires
        c.wf(),
        c.lawful(events),
    ensures
        c.run(events).wf(),
        c.run(events).max_pages == c.max_pages,
        c.run(events).max_depth == c.max_depth,
        c.frontier.seen.subset_of(c.run(events).frontier.seen),
        c.frontier.seen.len() <= c.run(events).frontier.seen.len(),
        c.frontier.popped + pops_in(c, events) == c.run(events).frontier.popped,
    decreases events.len(),
{
    if events.len() > 0 {
        lemma_after(c, events[0], Set::empty());
        lemma_run_grows(c.after(events[0]), events.skip(1));
    }
    lemma_len_subset(c.frontier.seen, c.run(events).frontier.seen);
}

/// Counting: at the end of a run, `pages_crawled` has grown by the number
/// of pages that were fetched, parsed and taken in, and `pages_failed` by
/// the number of fetches that failed. Turns of workers, seeds and tasks
/// given up leave both counters alone. Together the two counters never
/// exceed the number of tasks popped.
pub proof fn lemma_run_counts(c: CrawlerView, events: Seq<CrawlEvent>)
    requires
        c.wf(),
        c.lawful(events),
        c.run(events).frontier.seen.len() <= usize::MAX,
    ensures
        c.run(events).wf(),
        c.run(events).stats.pages_crawled == c.stats.pages_crawled + c.pages_in(events),
        c.run(events).stats.pages_failed == c.stats.pages_failed + failures_in(events),
        c.run(events).stats.pages_crawled + c.run(events).stats.pages_failed <= c.run(
            events,
        ).frontier.popped,
    decreases events.len(),
{
    if events.len() > 0 {
        lemma_run_grows(c, events);
        lemma_after(c, events[0], Set::empty());
        lemma_run_counts(c.after(events[0]), events.skip(1));
    }
}

/// Every task ends once: the tasks that a run ends are tasks that were in
/// flight at its start or that it popped, and what is in flight at its
/// end is the rest of them at most.
pub proof fn lemma_run_ends(c: CrawlerView, events: Seq<CrawlEvent>)
    requires
        c.wf(),
        c.lawful(events),
    ensures
        c.run(events).in_flight + ends_in(events) <= c.in_flight + pops_in(c, events),
    decreases events.len(),
{
    if events.len() > 0 {
        lemma_after(c, events[0], Set::empty());
        lemma_run_ends(c.after(events[0]), events.skip(1));
    }
}

/// Progress: as long as the budget lasts and the crawl is not exhausted,
/// there is work to do. Either a task is queued, and the turn of a
/// running worker pops it; or a task is in flight, and the call that ends
/// it may be made.
pub proof fn lemma_progress(c: CrawlerView)
    requires
        c.wf(),
        !c.budget_spent(),
        !c.exhausted(),
    ensures
        c.frontier.queue.len() > 0 ==> c.after(
            CrawlEvent::Turn(WorkerState::Running),
        ).frontier.popped == c.frontier.popped + 1,
        c.frontier.queue.len() == 0 ==> c.permits(CrawlEvent::Failure) && c.after(
            CrawlEvent::Failure,
        ).in_flight == c.in_flight - 1,
{
}

/// Bounded work: where every address that a run is offered, as a seed or
/// as a link of a page, comes from a finite set, the run pops at most as
/// many tasks as that set has addresses, however long it lasts, and
/// ends no more tasks than it popped or found in flight. With finitely
/// many addresses to reach, workers are handed finitely many tasks;
/// after the last of them has ended the frontier is empty and nothing is
/// in flight, which is where [`lemma_exhausted_stops`] takes over.
///
/// [`lemma_exhausted_stops`]: crate::crawler::crawler::lemma_exhausted_stops
pub proof fn lemma_run_bounded(c: CrawlerView, events: Seq<CrawlEvent>, universe: Set<Seq<char>>)
    requires
        c.wf(),
        c.lawful(events),
        universe.finite(),
        c.frontier.seen.subset_of(universe),
        offers_within(events, universe),
    ensures
        c.run(events).frontier.seen.subset_of(universe),
        c.run(events).frontier.popped <= universe.len(),
        c.run(events).frontier.queue.len() + c.run(events).frontier.popped <= universe.len(),
        pops_in(c, events) <= universe.len() - c.frontier.popped,
        ends_in(events) <= c.in_flight + universe.len() - c.frontier.popped,
    decreases events.len(),
{
    if events.len() > 0 {
        assert(offers_within(seq![events[0]], universe)) by {
            assert(seq![events[0]][0] == events[0]);
        }
        lemma_after(c, events[0], universe);
        assert(offers_within(events.skip(1), universe)) by {
            assert forall|i: int| 0 <= i < events.skip(1).len() implies match #[trigger] events.skip(
                1,
            )[i] {
                CrawlEvent::Seed(url) => universe.contains(url.text),
                CrawlEvent::Page(_, links) => forall|k: int|
                    0 <= k < links.len() ==> universe.contains((#[trigger] links[k]).text),
                _ => true,
            } by {
                assert(events.skip(1)[i] == events[i + 1]);
            }
        }
        lemma_run_bounded(c.after(events[0]), events.skip(1), universe);
        lemma_run_grows(c, events);
        lemma_run_ends(c, events);
    } else {
        lemma_len_subset(c.frontier.seen, universe);
    }
}

} // verus!
