//! The scheduler of detail requests.
//!
//! Requests for a package's details are queued by whoever displays the
//! package, and served one at a time by a single worker. A request is dropped
//! on arrival while the same package is being fetched or was asked for less
//! than a second ago. The worker takes urgent requests first, and among
//! requests of equal urgency the one that was queued first.
//!
//! The worker's fetch is the caller's business: `next_request` says what to
//! fetch, and `finish_request` is told when the fetch has ended.

use vstd::prelude::*;
use vstd::string::*;
use crate::clock::{elapsed, elapsed_since};
use crate::keyed::KeyedList;
use crate::package_info::PackageInfo;
use crate::text::{join, text_of};

verus! {

/// A repeated request for a package is dropped when the last one for it was
/// queued less than this many milliseconds ago.
pub const DEDUP_WINDOW_MS: u64 = 1000;

/// The loading animation moves on after this many milliseconds.
pub const ANIMATION_STEP_MS: u64 = 400;

/// The loading animation has this many frames.
pub const ANIMATION_FRAMES: u8 = 3;

/// A request for the details of one package.
#[derive(Debug)]
pub struct DetailRequest {
    pub name: String,
    pub priority: bool,
    /// When it was queued, in milliseconds.
    pub enqueued_at: u64,
}

/// A request as mathematical values.
pub struct RequestView {
    pub name: Seq<char>,
    pub priority: bool,
    pub enqueued_at: u64,
}

impl View for DetailRequest {
    type V = RequestView;

    open spec fn view(&self) -> RequestView {
        RequestView { name: self.name@, priority: self.priority, enqueued_at: self.enqueued_at }
    }
}

/// The requests of a list, in order.
pub open spec fn requests_of(requests: Seq<DetailRequest>) -> Seq<RequestView> {
    requests.map_values(|r: DetailRequest| r@)
}

/// What the scheduler holds.
pub struct SchedulerState {
    /// The requests that arrived since the worker last looked, oldest first.
    pub queue: Seq<RequestView>,
    /// The requests that the worker has taken over and not yet served.
    pub working: Seq<RequestView>,
    /// For each package, when it was last asked for.
    pub pending: Map<Seq<char>, u64>,
    /// The package that is being fetched.
    pub current: Option<Seq<char>>,
    /// What the worker is doing, in words.
    pub status: Option<Seq<char>>,
    /// The frame of the loading animation: 0, 1 or 2.
    pub frame: u8,
    /// When the animation last moved on.
    pub frame_since: u64,
}

/// A scheduler without requests, whose animation starts at `now`.
pub open spec fn idle_scheduler(now: u64) -> SchedulerState {
    SchedulerState {
        queue: Seq::empty(),
        working: Seq::empty(),
        pending: Map::empty(),
        current: None,
        status: None,
        frame: 0,
        frame_since: now,
    }
}

/// `a` is served before `b`: it is urgent and `b` is not, or both are equally
/// urgent and `a` was queued earlier.
pub open spec fn goes_before(a: RequestView, b: RequestView) -> bool {
    (a.priority && !b.priority) || (a.priority == b.priority && a.enqueued_at < b.enqueued_at)
}

/// The requests without those for `name`.
pub open spec fn without_name(requests: Seq<RequestView>, name: Seq<char>) -> Seq<RequestView>
    decreases requests.len(),
{
    if requests.len() == 0 {
        requests
    } else {
        let rest = without_name(requests.drop_last(), name);
        if requests.last().name == name {
            rest
        } else {
            rest.push(requests.last())
        }
    }
}

/// The working set after it has taken over the queued requests one by one:
/// each replaces whatever request the set held for the same package, so that
/// of several requests for one package only the newest stays.
pub open spec fn absorb(working: Seq<RequestView>, queue: Seq<RequestView>) -> Seq<RequestView>
    decreases queue.len(),
{
    if queue.len() == 0 {
        working
    } else {
        absorb(without_name(working, queue[0].name).push(queue[0]), queue.skip(1))
    }
}

/// The position of the request to serve next: the first of those that no
/// other request goes before. -1 where there is no request.
pub open spec fn next_index(requests: Seq<RequestView>) -> int
    decreases requests.len(),
{
    if requests.len() == 0 {
        -1
    } else {
        let k = next_index(requests.drop_last());
        if k >= 0 && !goes_before(requests.last(), requests[k]) {
            k
        } else {
            requests.len() - 1
        }
    }
}

/// Whether a request for `name` at `now` is taken: not while `name` is being
/// fetched, and not within the window after the last request for it.
pub open spec fn accepts(state: SchedulerState, name: Seq<char>, now: u64) -> bool {
    state.current != Some(name) && !(state.pending.contains_key(name) && elapsed(
        now,
        state.pending[name],
    ) < DEDUP_WINDOW_MS)
}

/// The scheduler after a request for `name` at `now`: where the request is
/// taken, it is marked as pending and queued; else nothing changes.
pub open spec fn after_request(
    state: SchedulerState,
    name: Seq<char>,
    priority: bool,
    now: u64,
) -> SchedulerState {
    if accepts(state, name, now) {
        SchedulerState {
            queue: state.queue.push(RequestView { name, priority, enqueued_at: now }),
            pending: state.pending.insert(name, now),
            ..state
        }
    } else {
        state
    }
}

/// The words that say which package is being fetched.
pub open spec fn loading_status(name: Seq<char>) -> Seq<char> {
    "Loading details for "@ + name
}

/// The scheduler after the worker has looked for work, given the packages
/// whose details are known already. While a fetch is outstanding the worker
/// is busy and nothing changes. Else it takes over the queue, and takes the
/// next request out of its working set; if that package's details are not
/// known, it becomes the current one.
pub open spec fn after_poll(state: SchedulerState, known: Set<Seq<char>>) -> SchedulerState {
    if state.current is Some {
        state
    } else {
        let merged = absorb(state.working, state.queue);
        let k = next_index(merged);
        if k < 0 {
            SchedulerState { queue: Seq::empty(), working: merged, ..state }
        } else if known.contains(merged[k].name) {
            SchedulerState { queue: Seq::empty(), working: merged.remove(k), ..state }
        } else {
            SchedulerState {
                queue: Seq::empty(),
                working: merged.remove(k),
                current: Some(merged[k].name),
                status: Some(loading_status(merged[k].name)),
                ..state
            }
        }
    }
}

/// The package that the worker is to fetch after it has looked for work, if
/// any.
pub open spec fn poll_result(state: SchedulerState, known: Set<Seq<char>>) -> Option<Seq<char>> {
    let merged = absorb(state.working, state.queue);
    let k = next_index(merged);
    if state.current is None && k >= 0 && !known.contains(merged[k].name) {
        Some(merged[k].name)
    } else {
        None
    }
}

/// The scheduler after the fetch for `name` has ended: nothing is current,
/// `name` is no longer pending, and there is no status.
pub open spec fn after_finish(state: SchedulerState, name: Seq<char>) -> SchedulerState {
    SchedulerState { pending: state.pending.remove(name), current: None, status: None, ..state }
}

/// The scheduler after it has been told to forget `name`: it is no longer
/// pending, and no longer current if it was.
pub open spec fn after_forget(state: SchedulerState, name: Seq<char>) -> SchedulerState {
    SchedulerState {
        pending: state.pending.remove(name),
        current: if state.current == Some(name) {
            None
        } else {
            state.current
        },
        ..state
    }
}

/// The scheduler after the animation clock has been read at `now`: a full
/// step after the last move the animation shows its next frame.
pub open spec fn after_animation(state: SchedulerState, now: u64) -> SchedulerState {
    if elapsed(now, state.frame_since) >= ANIMATION_STEP_MS {
        SchedulerState {
            frame: if state.frame + 1 < ANIMATION_FRAMES {
                (state.frame + 1) as u8
            } else {
                0
            },
            frame_since: now,
            ..state
        }
    } else {
        state
    }
}

/// The request to serve next is one of the list, no request goes before it,
/// and it goes before every request that stands earlier in the list.
pub proof fn next_index_is_first_best(requests: Seq<RequestView>)
    ensures
        requests.len() == 0 ==> next_index(requests) == -1,
        requests.len() > 0 ==> 0 <= next_index(requests) < requests.len(),
        forall|j: int|
            0 <= j < requests.len() ==> !goes_before(
                #[trigger] requests[j],
                requests[next_index(requests)],
            ),
        forall|j: int|
            0 <= j < next_index(requests) ==> goes_before(
                requests[next_index(requests)],
                #[trigger] requests[j],
            ),
    decreases requests.len(),
{
    if requests.len() > 0 {
        let front = requests.drop_last();
        next_index_is_first_best(front);
        let k = next_index(requests);
        let before = next_index(front);
        assert forall|j: int| 0 <= j < requests.len() implies !goes_before(
            #[trigger] requests[j],
            requests[k],
        ) by {
            if j < front.len() {
                assert(front[j] == requests[j]);
            }
            if before >= 0 {
                assert(front[before] == requests[before]);
            }
        }
        assert forall|j: int| 0 <= j < k implies goes_before(requests[k], #[trigger] requests[j]) by {
            assert(front[j] == requests[j]);
            if before >= 0 {
                assert(front[before] == requests[before]);
            }
        }
    }
}

/// Where an urgent request waits, the request to serve next is urgent,
/// whatever was queued first.
pub proof fn urgent_requests_go_first(requests: Seq<RequestView>, urgent: int)
    requires
        0 <= urgent < requests.len(),
        requests[urgent].priority,
    ensures
        0 <= next_index(requests) < requests.len(),
        requests[next_index(requests)].priority,
{
    next_index_is_first_best(requests);
    let k = next_index(requests);
    assert(!goes_before(requests[urgent], requests[k]));
}

/// Two requests for different packages, taken over by an empty working
/// set, stand in it in their order; the first is served next unless the
/// second goes before it.
proof fn lemma_two_requests(a: RequestView, b: RequestView)
    requires
        a.name != b.name,
    ensures
        absorb(Seq::empty(), seq![a, b]) == seq![a, b],
        next_index(seq![a, b]) == (if goes_before(b, a) {
            1int
        } else {
            0int
        }),
{
    let empty = Seq::<RequestView>::empty();
    let queue = seq![a, b];
    assert(without_name(empty, a.name) == empty);
    assert(seq![a].drop_last() =~= empty);
    assert(without_name(seq![a].drop_last(), b.name) == empty);
    assert(without_name(seq![a], b.name) =~= seq![a]);
    assert(queue.skip(1) =~= seq![b]);
    assert(seq![b].skip(1) =~= empty);
    assert(empty.push(a) =~= seq![a]);
    assert(seq![a].push(b) =~= queue);
    assert(absorb(queue, empty) == queue);
    assert(absorb(seq![a], seq![b]) == absorb(
        without_name(seq![a], seq![b][0].name).push(seq![b][0]),
        seq![b].skip(1),
    ));
    assert(absorb(empty, queue) == absorb(
        without_name(empty, queue[0].name).push(queue[0]),
        queue.skip(1),
    ));
    assert(queue.drop_last() =~= seq![a]);
    assert(next_index(seq![a].drop_last()) == -1);
    assert(next_index(seq![a]) == 0);
}

/// An urgent request and one that is not, for two packages, wait at the
/// same time: the worker serves the urgent one first, whichever was queued
/// first and whatever their times.
pub proof fn urgent_request_overtakes(
    started_at: u64,
    urgent: Seq<char>,
    urgent_at: u64,
    other: Seq<char>,
    other_at: u64,
)
    requires
        urgent != other,
    ensures
        poll_result(
            after_request(
                after_request(idle_scheduler(started_at), urgent, true, urgent_at),
                other,
                false,
                other_at,
            ),
            Set::empty(),
        ) == Some(urgent),
        poll_result(
            after_request(
                after_request(idle_scheduler(started_at), other, false, other_at),
                urgent,
                true,
                urgent_at,
            ),
            Set::empty(),
        ) == Some(urgent),
{
    let first = RequestView { name: urgent, priority: true, enqueued_at: urgent_at };
    let second = RequestView { name: other, priority: false, enqueued_at: other_at };
    let empty = Seq::<RequestView>::empty();
    let idle = idle_scheduler(started_at);
    lemma_two_requests(first, second);
    lemma_two_requests(second, first);
    let one = after_request(idle, urgent, true, urgent_at);
    assert(accepts(idle, urgent, urgent_at));
    assert(accepts(one, other, other_at));
    let both = after_request(one, other, false, other_at);
    assert(both.queue =~= seq![first, second]);
    assert(both.working == empty);
    let other_one = after_request(idle, other, false, other_at);
    assert(accepts(idle, other, other_at));
    assert(accepts(other_one, urgent, urgent_at));
    let other_both = after_request(other_one, urgent, true, urgent_at);
    assert(other_both.queue =~= seq![second, first]);
    assert(other_both.working == empty);
}

/// Of two requests for one package, made one after the other less than the
/// window apart, the second is dropped: the scheduler is as the first left
/// it, with one request queued.
pub proof fn repeated_request_is_dropped(
    state: SchedulerState,
    name: Seq<char>,
    first_priority: bool,
    first_at: u64,
    second_priority: bool,
    second_at: u64,
)
    requires
        accepts(state, name, first_at),
        elapsed(second_at, first_at) < DEDUP_WINDOW_MS,
    ensures
        !accepts(after_request(state, name, first_priority, first_at), name, second_at),
        after_request(
            after_request(state, name, first_priority, first_at),
            name,
            second_priority,
            second_at,
        ) == after_request(state, name, first_priority, first_at),
        after_request(state, name, first_priority, first_at).queue.len() == state.queue.len() + 1,
{
}

/// A request is not taken either while the worker has its package in hand:
/// from the moment the worker takes a request until its fetch has ended,
/// every request for that package is dropped.
pub proof fn request_for_current_is_dropped(
    state: SchedulerState,
    known: Set<Seq<char>>,
    now: u64,
)
    requires
        poll_result(state, known) is Some,
    ensures
        !accepts(after_poll(state, known), poll_result(state, known)->0, now),
{
}

/// Takes the requests for `name` out of the list.
fn drop_name(requests: &mut Vec<DetailRequest>, name: &String)
    ensures
        requests_of(final(requests)@) == without_name(requests_of(old(requests)@), name@),
{
    let mut all: Vec<DetailRequest> = Vec::new();
    core::mem::swap(requests, &mut all);
    let ghost before = requests_of(all@);
    assert(before.take(0) =~= Seq::<RequestView>::empty());
    assert(requests_of(requests@) =~= without_name(before.take(0), name@));
    for request in it: all
        invariant
            before == requests_of(it.seq()),
            requests_of(requests@) == without_name(before.take(it.index() as int), name@),
    {
        proof {
            let shorter = before.take(it.index() as int);
            let longer = before.take(it.index() + 1);
            assert(longer.drop_last() =~= shorter);
            assert(longer.last() == request@);
        }
        if request.name != *name {
            assert(requests_of(requests@.push(request)) =~= requests_of(requests@).push(request@));
            requests.push(request);
        }
    }
    assert(before.take(before.len() as int) =~= before);
}

/// Whether `a` is served before `b`.
fn request_goes_before(a: &DetailRequest, b: &DetailRequest) -> (before: bool)
    ensures
        before == goes_before(a@, b@),
{
    (a.priority && !b.priority) || (a.priority == b.priority && a.enqueued_at < b.enqueued_at)
}

/// Finds the request to serve next.
fn find_next(requests: &Vec<DetailRequest>) -> (position: Option<usize>)
    ensures
        match position {
            Some(k) => k < requests.len() && k == next_index(requests_of(requests@)),
            None => requests.len() == 0 && next_index(requests_of(requests@)) == -1,
        },
{
    if requests.len() == 0 {
        return None;
    }
    let ghost views = requests_of(requests@);
    let mut best: usize = 0;
    let mut i: usize = 1;
    proof {
        let first = views.take(1);
        assert(first.drop_last().len() == 0);
        assert(next_index(first.drop_last()) == -1);
        assert(next_index(first) == 0);
    }
    while i < requests.len()
        invariant
            1 <= i <= requests.len(),
            views == requests_of(requests@),
            best < i,
            best == next_index(views.take(i as int)),
        decreases requests.len() - i,
    {
        proof {
            let shorter = views.take(i as int);
            let longer = views.take(i + 1);
            assert(longer.drop_last() =~= shorter);
            assert(longer.last() == requests@[i as int]@);
            assert(longer[best as int] == requests@[best as int]@);
        }
        if request_goes_before(&requests[i], &requests[best]) {
            best = i;
        }
        i = i + 1;
    }
    assert(views.take(requests.len() as int) =~= views);
    Some(best)
}

/// Lets the working set take over the queued requests, oldest first.
fn absorb_queue(working: &mut Vec<DetailRequest>, queue: Vec<DetailRequest>)
    ensures
        requests_of(final(working)@) == absorb(requests_of(old(working)@), requests_of(queue@)),
{
    let ghost arrived = requests_of(queue@);
    let ghost before = requests_of(working@);
    assert(arrived.skip(0) =~= arrived);
    for request in it: queue
        invariant
            arrived == requests_of(it.seq()),
            absorb(before, arrived) == absorb(
                requests_of(working@),
                arrived.skip(it.index() as int),
            ),
    {
        let ghost rest = arrived.skip(it.index() as int);
        proof {
            assert(rest[0] == request@);
            assert(rest.skip(1) =~= arrived.skip(it.index() + 1));
        }
        drop_name(working, &request.name);
        assert(requests_of(working@.push(request)) =~= requests_of(working@).push(request@));
        working.push(request);
    }
}

/// The scheduler of detail requests.
pub struct DetailScheduler {
    queue: Vec<DetailRequest>,
    working: Vec<DetailRequest>,
    pending: KeyedList<u64>,
    current: Option<String>,
    status: Option<String>,
    frame: u8,
    frame_since: u64,
}

impl View for DetailScheduler {
    type V = SchedulerState;

    closed spec fn view(&self) -> SchedulerState {
        SchedulerState {
            queue: requests_of(self.queue@),
            working: requests_of(self.working@),
            pending: self.pending@,
            current: text_of(self.current),
            status: text_of(self.status),
            frame: self.frame,
            frame_since: self.frame_since,
        }
    }
}

impl DetailScheduler {
    /// A scheduler without requests, whose animation starts at `now`.
    pub fn new(now: u64) -> (scheduler: Self)
        ensures
            scheduler@ == idle_scheduler(now),
    {
        let scheduler = DetailScheduler {
            queue: Vec::new(),
            working: Vec::new(),
            pending: KeyedList::new(),
            current: None,
            status: None,
            frame: 0,
            frame_since: now,
        };
        assert(requests_of(scheduler.queue@) =~= Seq::<RequestView>::empty());
        assert(requests_of(scheduler.working@) =~= Seq::<RequestView>::empty());
        scheduler
    }

    /// Asks for the details of `name` at `now`. The request is dropped while
    /// `name` is being fetched, or when it was asked for less than a second
    /// ago; else it is marked as pending and queued. Says whether it was
    /// queued.
    pub fn request_details(&mut self, name: &str, priority: bool, now: u64) -> (queued: bool)
        ensures
            queued == accepts(old(self)@, name@, now),
            final(self)@ == after_request(old(self)@, name@, priority, now),
    {
        let owned = name.to_string();
        let is_current = match &self.current {
            Some(current) => *current == owned,
            None => false,
        };
        if is_current {
            return false;
        }
        let recent = match self.pending.get(name) {
            Some(last) => elapsed_since(now, *last) < DEDUP_WINDOW_MS,
            None => false,
        };
        if recent {
            return false;
        }
        self.pending.insert(name.to_string(), now);
        let request = DetailRequest { name: owned, priority, enqueued_at: now };
        assert(requests_of(self.queue@.push(request)) =~= requests_of(self.queue@).push(request@));
        self.queue.push(request);
        true
    }
    /// Looks for work, as the worker does once per round. While a fetch is
    /// outstanding nothing happens. Else the working set takes over the
    /// queue, and one request, never more, is taken out of it: the first of
    /// those that no other goes before. Where `known` holds that package's
    /// details the request is dropped in silence; else the package becomes
    /// the current one, the status says so, and its name is returned for the
    /// caller to fetch.
    pub fn next_request(&mut self, known: &KeyedList<PackageInfo>) -> (fetch: Option<String>)
        ensures
            final(self)@ == after_poll(old(self)@, known@.dom()),
            text_of(fetch) == poll_result(old(self)@, known@.dom()),
    {
        if self.current.is_some() {
            return None;
        }
        let mut queue: Vec<DetailRequest> = Vec::new();
        core::mem::swap(&mut self.queue, &mut queue);
        assert(requests_of(self.queue@) =~= Seq::<RequestView>::empty());
        absorb_queue(&mut self.working, queue);
        match find_next(&self.working) {
            Some(k) => {
                assert(requests_of(self.working@.remove(k as int)) =~= requests_of(
                    self.working@,
                ).remove(k as int));
                let request = self.working.remove(k);
                if known.contains_key(request.name.as_str()) {
                    None
                } else {
                    self.status = Some(join("Loading details for ", request.name.as_str()));
                    self.current = Some(request.name.clone());
                    Some(request.name)
                }
            },
            None => None,
        }
    }

    /// Tells the scheduler that the fetch for `name` has ended, however it
    /// went: nothing is current any more, `name` is no longer pending, and
    /// the status is cleared.
    pub fn finish_request(&mut self, name: &str)
        ensures
            final(self)@ == after_finish(old(self)@, name@),
    {
        self.current = None;
        self.pending.remove(name);
        self.status = None;
    }

    /// Forgets `name`: it is no longer pending, and no longer current if it
    /// was.
    pub fn forget(&mut self, name: &str)
        ensures
            final(self)@ == after_forget(old(self)@, name@),
    {
        self.pending.remove(name);
        let owned = name.to_string();
        let is_current = match &self.current {
            Some(current) => *current == owned,
            None => false,
        };
        if is_current {
            self.current = None;
        }
    }

    /// Reads the animation clock at `now`: a full step after its last move
    /// the animation shows its next frame, whether or not a fetch has ended
    /// meanwhile. Returns the frame to show: 0, 1 or 2.
    pub fn advance_animation(&mut self, now: u64) -> (frame: u8)
        ensures
            final(self)@ == after_animation(old(self)@, now),
            frame == final(self)@.frame,
    {
        if elapsed_since(now, self.frame_since) >= ANIMATION_STEP_MS {
            self.frame = if self.frame < ANIMATION_FRAMES - 1 {
                self.frame + 1
            } else {
                0
            };
            self.frame_since = now;
        }
        self.frame
    }

    /// The package that is being fetched, if any.
    pub fn current_request(&self) -> (name: Option<String>)
        ensures
            text_of(name) == self@.current,
    {
        self.current.clone()
    }

    /// What the worker is doing, in words, while it fetches.
    pub fn status(&self) -> (status: Option<String>)
        ensures
            text_of(status) == self@.status,
    {
        self.status.clone()
    }

    /// The frame of the loading animation: 0, 1 or 2.
    pub fn loading_frame(&self) -> (frame: u8)
        ensures
            frame == self@.frame,
    {
        self.frame
    }

    /// How many requests have arrived since the worker last looked.
    pub fn queued(&self) -> (count: usize)
        ensures
            count == self@.queue.len(),
    {
        self.queue.len()
    }

    /// How many requests the worker has taken over and not yet served.
    pub fn taken_over(&self) -> (count: usize)
        ensures
            count == self@.working.len(),
    {
        self.working.len()
    }

    /// Whether a request for `name` is marked as pending.
    pub fn is_pending(&self, name: &str) -> (pending: bool)
        ensures
            pending == self@.pending.contains_key(name@),
    {
        self.pending.contains_key(name)
    }
}

} // verus!
