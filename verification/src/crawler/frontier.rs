//! The frontier: a bounded first-in, first-out queue of crawl tasks that
//! admits each address at most once.

use crate::crawler::address::{Address, AddressView};
use std::collections::VecDeque;
use vstd::hash_set::StringHashSet;
use vstd::prelude::*;

verus! {

/// One unit of work: an address to fetch, how many links it is away from
/// the nearest seed, and how often it has been retried.
#[derive(Debug)]
pub struct CrawlTask {
    pub url: Address,
    pub depth: usize,
    pub retry_count: u32,
}

/// The mathematical value of a [`CrawlTask`].
pub struct TaskView {
    pub url: AddressView,
    pub depth: nat,
    pub retry_count: nat,
}

impl View for CrawlTask {
    type V = TaskView;

    open spec fn view(&self) -> TaskView {
        TaskView {
            url: self.url@,
            depth: self.depth as nat,
            retry_count: self.retry_count as nat,
        }
    }
}

impl Clone for CrawlTask {
    fn clone(&self) -> (r: Self)
        ensures
            r@ == self@,
    {
        CrawlTask { url: self.url.clone(), depth: self.depth, retry_count: self.retry_count }
    }
}

/// The state of a frontier: the queue from oldest to newest, the texts of
/// all addresses ever admitted, the capacity, and how many tasks have
/// left the queue and how many have been put back since it was made.
pub struct FrontierView {
    pub queue: Seq<TaskView>,
    pub seen: Set<Seq<char>>,
    pub capacity: nat,
    pub popped: nat,
    pub retried: nat,
}

impl FrontierView {
    /// A frontier that has seen nothing.
    pub open spec fn empty(capacity: nat) -> FrontierView {
        FrontierView {
            queue: Seq::empty(),
            seen: Set::empty(),
            capacity,
            popped: 0,
            retried: 0,
        }
    }

    /// What every frontier satisfies: the queue is within capacity, and
    /// every task that entered it, by admission or by retry, is still
    /// queued or has been popped.
    pub open spec fn wf(self) -> bool {
        &&& self.seen.finite()
        &&& self.queue.len() <= self.capacity
        &&& self.queue.len() + self.popped == self.seen.len() + self.retried
    }

    /// Whether `add` would admit `url`: it has not been seen, and the
    /// queue has room.
    pub open spec fn admits(self, url: AddressView) -> bool {
        !self.seen.contains(url.text) && self.queue.len() < self.capacity
    }

    /// The frontier after `add(url, depth)`.
    pub open spec fn add(self, url: AddressView, depth: nat) -> FrontierView {
        if self.admits(url) {
            FrontierView {
                queue: self.queue.push(TaskView { url, depth, retry_count: 0 }),
                seen: self.seen.insert(url.text),
                ..self
            }
        } else {
            self
        }
    }

    /// The frontier after `add` of each entry of `items`, in order.
    pub open spec fn add_many(self, items: Seq<(AddressView, nat)>) -> FrontierView
        decreases items.len(),
    {
        if items.len() == 0 {
            self
        } else {
            self.add(items[0].0, items[0].1).add_many(items.skip(1))
        }
    }

    /// The task that `pop` hands out.
    pub open spec fn front(self) -> Option<TaskView> {
        if self.queue.len() > 0 {
            Some(self.queue[0])
        } else {
            None
        }
    }

    /// The frontier after `pop`.
    pub open spec fn pop(self) -> FrontierView {
        if self.queue.len() > 0 {
            FrontierView { queue: self.queue.skip(1), popped: self.popped + 1, ..self }
        } else {
            self
        }
    }

    /// The frontier after `retry(task)`.
    pub open spec fn retry(self, task: TaskView) -> FrontierView {
        if self.queue.len() < self.capacity {
            FrontierView {
                queue: self.queue.push(TaskView { retry_count: task.retry_count + 1, ..task }),
                retried: self.retried + 1,
                ..self
            }
        } else {
            self
        }
    }
}

/// One call on a frontier.
pub enum FrontierOp {
    Add(AddressView, nat),
    Pop,
    Retry(TaskView),
}

impl FrontierView {
    /// The frontier after one call.
    pub open spec fn apply(self, op: FrontierOp) -> FrontierView {
        match op {
            FrontierOp::Add(url, depth) => self.add(url, depth),
            FrontierOp::Pop => self.pop(),
            FrontierOp::Retry(task) => self.retry(task),
        }
    }

    /// The frontier after the calls `ops`, in order.
    pub open spec fn run(self, ops: Seq<FrontierOp>) -> FrontierView
        decreases ops.len(),
    {
        if ops.len() == 0 {
            self
        } else {
            self.apply(ops[0]).run(ops.skip(1))
        }
    }
}

/// Every call keeps a frontier well-formed.
pub proof fn lemma_apply_wf(m: FrontierView, op: FrontierOp)
    requires
        m.wf(),
    ensures
        m.apply(op).wf(),
        m.apply(op).capacity == m.capacity,
{
}

/// No call removes an address from the seen set.
pub proof fn lemma_seen_grows(m: FrontierView, ops: Seq<FrontierOp>)
    ensures
        m.seen.subset_of(m.run(ops).seen),
        m.run(ops).capacity == m.capacity,
        m.wf() ==> m.run(ops).wf(),
    decreases ops.len(),
{
    if ops.len() > 0 {
        if m.wf() {
            lemma_apply_wf(m, ops[0]);
        }
        lemma_seen_grows(m.apply(ops[0]), ops.skip(1));
    }
}

/// Deduplication: an address that was admitted once is refused ever
/// after, whatever calls were made in between and at whatever depth it
/// is offered again.
pub proof fn lemma_admitted_once(
    m: FrontierView,
    url: AddressView,
    depth: nat,
    ops: Seq<FrontierOp>,
    again: AddressView,
    again_depth: nat,
)
    requires
        m.admits(url),
        again.text == url.text,
    ensures
        !m.add(url, depth).run(ops).admits(again),
        m.add(url, depth).run(ops).add(again, again_depth) == m.add(url, depth).run(ops),
{
    lemma_seen_grows(m.add(url, depth), ops);
}

/// Capacity: a full frontier refuses every address and stays as it is.
pub proof fn lemma_full_refuses(m: FrontierView, url: AddressView, depth: nat)
    requires
        m.queue.len() == m.capacity,
    ensures
        !m.admits(url),
        m.add(url, depth) == m,
{
}

/// Capacity: one `pop` from a full frontier frees a slot, so that the
/// next address not seen before is admitted.
pub proof fn lemma_pop_frees_slot(m: FrontierView, url: AddressView)
    requires
        m.queue.len() == m.capacity,
        m.capacity > 0,
        !m.seen.contains(url.text),
    ensures
        m.pop().admits(url),
{
}

/// First in, first out: two addresses admitted one after the other leave
/// in that order, directly after the tasks that were queued before them.
pub proof fn lemma_fifo(m: FrontierView, a: AddressView, a_depth: nat, b: AddressView, b_depth: nat)
    requires
        m.admits(a),
        m.add(a, a_depth).admits(b),
    ensures
        ({
            let after = m.add(a, a_depth).add(b, b_depth);
            let n = m.queue.len() as int;
            &&& after.queue.take(n) == m.queue
            &&& after.queue[n] == TaskView { url: a, depth: a_depth, retry_count: 0 }
            &&& after.queue[n + 1] == TaskView { url: b, depth: b_depth, retry_count: 0 }
            &&& after.queue.len() == n + 2
        }),
        m.queue.len() == 0 ==> ({
            let after = m.add(a, a_depth).add(b, b_depth);
            &&& after.front() == Some(TaskView { url: a, depth: a_depth, retry_count: 0 })
            &&& after.pop().front() == Some(TaskView { url: b, depth: b_depth, retry_count: 0 })
        }),
{
    let after = m.add(a, a_depth).add(b, b_depth);
}

/// The queue of crawl tasks.
pub struct UrlFrontier {
    /// Tasks waiting to be crawled, oldest first.
    queue: VecDeque<CrawlTask>,
    /// The text of every address admitted so far.
    seen: StringHashSet,
    /// The largest number of tasks that may wait at once.
    max_size: usize,
    /// How many tasks have been popped.
    popped: Ghost<nat>,
    /// How many tasks have been put back by `retry`.
    retried: Ghost<nat>,
}

/// A snapshot of a frontier's sizes.
#[derive(Debug)]
pub struct FrontierStats {
    pub queue_size: usize,
    pub seen_count: usize,
    pub max_size: usize,
}

impl View for UrlFrontier {
    type V = FrontierView;

    closed spec fn view(&self) -> FrontierView {
        FrontierView {
            queue: self.queue@.map_values(|t: CrawlTask| t@),
            seen: self.seen@,
            capacity: self.max_size as nat,
            popped: self.popped@,
            retried: self.retried@,
        }
    }
}

impl UrlFrontier {
    /// The invariant of the frontier; see [`FrontierView::wf`].
    pub open spec fn wf(&self) -> bool {
        self@.wf() && self@.capacity <= usize::MAX
    }

    /// The seen set has a size that the machine can count.
    pub proof fn lemma_seen_fits(&self)
        ensures
            self@.seen.len() <= usize::MAX,
    {
        broadcast use vstd::hash_set::group_hash_set_axioms;

        assert(self.seen@.len() == self.seen.len());
    }

    /// An empty frontier that holds at most `max_size` tasks at once.
    pub fn new(max_size: usize) -> (r: Self)
        ensures
            r.wf(),
            r@ == FrontierView::empty(max_size as nat),
    {
        let r = UrlFrontier {
            queue: VecDeque::new(),
            seen: StringHashSet::new(),
            max_size,
            popped: Ghost(0),
            retried: Ghost(0),
        };
        assert(r@.queue =~= Seq::empty());
        r
    }

    /// Admits `url` at `depth` unless it was admitted before or the queue
    /// is full. Says whether it was admitted.
    pub fn add(&mut self, url: Address, depth: usize) -> (admitted: bool)
        requires
            old(self).wf(),
        ensures
            final(self).wf(),
            admitted == old(self)@.admits(url@),
            final(self)@ == old(self)@.add(url@, depth as nat),
    {
        if self.seen.contains(url.as_str()) {
            return false;
        }
        if self.queue.len() >= self.max_size {
            return false;
        }
        let key = url.as_str().to_owned();
        let ghost before = self.queue@;
        let task = CrawlTask { url, depth, retry_count: 0 };
        self.seen.insert(key);
        self.queue.push_back(task);
        proof {
            assert(self.queue@.map_values(|t: CrawlTask| t@) =~= before.map_values(
                |t: CrawlTask| t@,
            ).push(task@));
        }
        true
    }

    /// Calls `add` for each entry of `urls`, in order.
    pub fn add_many(&mut self, urls: Vec<(Address, usize)>)
        requires
            old(self).wf(),
        ensures
            final(self).wf(),
            final(self)@ == old(self)@.add_many(task_items(urls@)),
    {
        let ghost items = urls@;
        let ghost all = task_items(urls@);
        let ghost start = self@;
        assert(all.skip(0) =~= all);
        for item in it: urls.into_iter()
            invariant
                self.wf(),
                it.seq() == items,
                all == task_items(items),
                start.add_many(all) == self@.add_many(all.skip(it.index() as int)),
        {
            let (url, depth) = item;
            proof {
                let tail = all.skip(it.index() as int);
                assert(tail.skip(1) =~= all.skip(it.index() + 1));
            }
            self.add(url, depth);
        }
    }

    /// Takes the oldest task off the queue.
    pub fn pop(&mut self) -> (task: Option<CrawlTask>)
        requires
            old(self).wf(),
        ensures
            final(self).wf(),
            final(self)@ == old(self)@.pop(),
            match task {
                Some(t) => old(self)@.front() == Some(t@),
                None => old(self)@.front() is None,
            },
    {
        let ghost before = self.queue@;
        let task = self.queue.pop_front();
        proof {
            if task is Some {
                self.popped@ = self.popped@ + 1;
                assert(self.queue@.map_values(|t: CrawlTask| t@) =~= before.map_values(
                    |t: CrawlTask| t@,
                ).skip(1));
            }
        }
        task
    }

    /// The number of tasks waiting.
    pub fn size(&self) -> (n: usize)
        ensures
            n == self@.queue.len(),
    {
        self.queue.len()
    }

    /// Whether no task is waiting.
    pub fn is_empty(&self) -> (b: bool)
        ensures
            b == (self@.queue.len() == 0),
    {
        self.queue.len() == 0
    }

    /// Whether `url` has ever been admitted.
    pub fn has_seen(&self, url: &Address) -> (b: bool)
        ensures
            b == self@.seen.contains(url@.text),
    {
        self.seen.contains(url.as_str())
    }

    /// Puts a task that failed back at the end of the queue with its
    /// retry count raised by one, if the queue has room; drops it
    /// otherwise. Says whether it was put back.
    pub fn retry(&mut self, task: CrawlTask) -> (queued: bool)
        requires
            old(self).wf(),
            task.retry_count < u32::MAX,
        ensures
            final(self).wf(),
            queued == (old(self)@.queue.len() < old(self)@.capacity),
            final(self)@ == old(self)@.retry(task@),
    {
        let mut task = task;
        task.retry_count = task.retry_count + 1;
        if self.queue.len() < self.max_size {
            let ghost before = self.queue@;
            let ghost pushed = task@;
            self.queue.push_back(task);
            proof {
                self.retried@ = self.retried@ + 1;
                assert(self.queue@.map_values(|t: CrawlTask| t@) =~= before.map_values(
                    |t: CrawlTask| t@,
                ).push(pushed));
            }
            true
        } else {
            false
        }
    }

    /// The sizes of the queue and of the seen set, and the capacity.
    pub fn stats(&self) -> (s: FrontierStats)
        ensures
            s.queue_size == self@.queue.len(),
            s.seen_count == self@.seen.len(),
            s.max_size == self@.capacity,
    {
        FrontierStats {
            queue_size: self.queue.len(),
            seen_count: self.seen.len(),
            max_size: self.max_size,
        }
    }
}

/// The entries of a batch as the model sees them.
pub open spec fn task_items(urls: Seq<(Address, usize)>) -> Seq<(AddressView, nat)> {
    urls.map_values(|p: (Address, usize)| (p.0@, p.1 as nat))
}

} // verus!
