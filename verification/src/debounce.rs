//! The search debouncer: coalesces bursts of query edits, dispatches a
//! search only after a quiet period, and while a search is in flight keeps
//! only the latest newer query for the next round.
//!
//! The host owns the timers and the search worker; it reports submissions,
//! deadline polls and search completions here, and starts a search exactly
//! when `poll` hands a query back.

use vstd::prelude::*;

verus! {

/// How long the query stream must stay quiet before a search is dispatched,
/// in milliseconds.
pub const QUIET_PERIOD_MS: u64 = 100;

/// The debouncer's state, over mathematical time and text.
pub enum DebounceModel {
    /// No query pending, no search running.
    Idle,
    /// `query` is waiting for the stream to stay quiet until `deadline`.
    Quiet { query: Seq<char>, deadline: int },
    /// A search is in flight; at most the latest newer query is kept.
    Busy { queued: Option<Seq<char>> },
}

/// A newly submitted query restarts the quiet-period timer, overwriting any
/// waiting query; while a search is busy it only replaces the queued query.
pub open spec fn spec_submit(m: DebounceModel, query: Seq<char>, now: int) -> DebounceModel {
    match m {
        DebounceModel::Busy { queued } => DebounceModel::Busy { queued: Some(query) },
        _ => DebounceModel::Quiet { query, deadline: now + QUIET_PERIOD_MS },
    }
}

/// A deadline poll at `now` dispatches the waiting query once the quiet
/// period has elapsed; otherwise nothing changes.
pub open spec fn spec_poll(m: DebounceModel, now: int) -> (DebounceModel, Option<Seq<char>>) {
    match m {
        DebounceModel::Quiet { query, deadline } => {
            if now >= deadline {
                (DebounceModel::Busy { queued: None }, Some(query))
            } else {
                (m, None)
            }
        },
        _ => (m, None),
    }
}

/// When the in-flight search completes, a queued query enters a fresh quiet
/// period; with nothing queued the debouncer falls idle.
pub open spec fn spec_complete(m: DebounceModel, now: int) -> DebounceModel {
    match m {
        DebounceModel::Busy { queued: Some(q) } => DebounceModel::Quiet {
            query: q,
            deadline: now + QUIET_PERIOD_MS,
        },
        DebounceModel::Busy { queued: None } => DebounceModel::Idle,
        _ => m,
    }
}

/// The debouncer as the host holds it.
pub enum Debouncer {
    Idle,
    Quiet { query: String, deadline: u64 },
    Busy { queued: Option<String> },
}

impl View for Debouncer {
    type V = DebounceModel;

    open spec fn view(&self) -> DebounceModel {
        match self {
            Debouncer::Idle => DebounceModel::Idle,
            Debouncer::Quiet { query, deadline } => DebounceModel::Quiet {
                query: query@,
                deadline: *deadline as int,
            },
            Debouncer::Busy { queued } => DebounceModel::Busy {
                queued: match queued {
                    Some(q) => Some(q@),
                    None => None,
                },
            },
        }
    }
}

impl Debouncer {
    /// A debouncer with no query seen yet.
    pub fn new() -> (d: Self)
        ensures
            d@ == DebounceModel::Idle,
    {
        Debouncer::Idle
    }

    /// Records a query edit at time `now`.
    pub fn submit(&mut self, query: String, now: u64)
        requires
            now + QUIET_PERIOD_MS <= u64::MAX,
        ensures
            final(self)@ == spec_submit(old(self)@, query@, now as int),
    {
        match self {
            Debouncer::Busy { queued } => {
                *queued = Some(query);
            },
            _ => {
                *self = Debouncer::Quiet { query, deadline: now + QUIET_PERIOD_MS };
            },
        }
    }

    /// Checks the quiet-period deadline at time `now`. A returned query is
    /// owed a search invocation; the debouncer counts it as in flight.
    pub fn poll(&mut self, now: u64) -> (start: Option<String>)
        ensures
            final(self)@ == spec_poll(old(self)@, now as int).0,
            start.deep_view() == spec_poll(old(self)@, now as int).1,
    {
        match self {
            Debouncer::Quiet { query, deadline } => {
                if now >= *deadline {
                    let mut q = String::new();
                    core::mem::swap(query, &mut q);
                    *self = Debouncer::Busy { queued: None };
                    Some(q)
                } else {
                    None
                }
            },
            _ => None,
        }
    }

    /// Reports at time `now` that the in-flight search delivered its result.
    pub fn on_search_complete(&mut self, now: u64)
        requires
            now + QUIET_PERIOD_MS <= u64::MAX,
        ensures
            final(self)@ == spec_complete(old(self)@, now as int),
    {
        let queued = match self {
            Debouncer::Busy { queued } => queued.take(),
            _ => return,
        };
        match queued {
            Some(q) => {
                *self = Debouncer::Quiet { query: q, deadline: now + QUIET_PERIOD_MS };
            },
            None => {
                *self = Debouncer::Idle;
            },
        }
    }

    /// The deadline the host should arm its timer for, if any.
    pub fn deadline(&self) -> (d: Option<u64>)
        ensures
            match self@ {
                DebounceModel::Quiet { query, deadline } => {
                    d matches Some(t) && t as int == deadline
                },
                _ => d is None,
            },
    {
        match self {
            Debouncer::Quiet { query: _, deadline } => Some(*deadline),
            _ => None,
        }
    }

    /// Whether a search is currently in flight.
    pub fn is_busy(&self) -> (b: bool)
        ensures
            b == (self@ is Busy),
    {
        match self {
            Debouncer::Busy { .. } => true,
            _ => false,
        }
    }
}

/// The debouncer's state after a sequence of deadline polls, with the
/// queries it dispatched, in order.
pub open spec fn run_polls(m: DebounceModel, polls: Seq<int>) -> (DebounceModel, Seq<Seq<char>>)
    decreases polls.len(),
{
    if polls.len() == 0 {
        (m, Seq::empty())
    } else {
        let (m1, fired) = spec_poll(m, polls[0]);
        let (m2, rest) = run_polls(m1, polls.drop_first());
        match fired {
            Some(q) => (m2, seq![q] + rest),
            None => (m2, rest),
        }
    }
}

/// Polls that all happen before the deadline neither move the debouncer nor
/// dispatch anything.
pub proof fn lemma_early_polls_are_silent(query: Seq<char>, deadline: int, polls: Seq<int>)
    requires
        forall|i: int| 0 <= i < polls.len() ==> polls[i] < deadline,
    ensures
        run_polls(DebounceModel::Quiet { query, deadline }, polls)
            == (DebounceModel::Quiet { query, deadline }, Seq::<Seq<char>>::empty()),
    decreases polls.len(),
{
    if polls.len() > 0 {
        lemma_early_polls_are_silent(query, deadline, polls.drop_first());
    }
}

/// While a search is in flight, or with no query pending, deadline polls
/// dispatch nothing.
pub proof fn lemma_polls_without_waiting_query_are_silent(m: DebounceModel, polls: Seq<int>)
    requires
        !(m is Quiet),
    ensures
        run_polls(m, polls) == (m, Seq::<Seq<char>>::empty()),
    decreases polls.len(),
{
    if polls.len() > 0 {
        lemma_polls_without_waiting_query_are_silent(m, polls.drop_first());
    }
}

/// From a waiting query, any sequence of deadline polls dispatches that
/// query at most once, and exactly once as soon as some poll falls on or
/// after the deadline.
pub proof fn lemma_waiting_query_fires_at_most_once(query: Seq<char>, deadline: int, polls: Seq<int>)
    ensures
        ({
            let (m, fired) = run_polls(DebounceModel::Quiet { query, deadline }, polls);
            &&& fired.len() <= 1
            &&& forall|i: int| 0 <= i < fired.len() ==> fired[i] == query
            &&& (fired.len() == 1 <==> exists|i: int| 0 <= i < polls.len() && polls[i] >= deadline)
        }),
    decreases polls.len(),
{
    if polls.len() > 0 {
        if polls[0] >= deadline {
            lemma_polls_without_waiting_query_are_silent(
                DebounceModel::Busy { queued: None },
                polls.drop_first(),
            );
        } else {
            lemma_waiting_query_fires_at_most_once(query, deadline, polls.drop_first());
            let (m, fired) = run_polls(DebounceModel::Quiet { query, deadline }, polls);
            if fired.len() == 1 {
                let j = choose|j: int|
                    0 <= j < polls.drop_first().len() && polls.drop_first()[j] >= deadline;
                assert(polls[j + 1] >= deadline);
            } else {
                assert(forall|i: int|
                    0 <= i < polls.len() && polls[i] >= deadline ==> i >= 1 && 0 <= i - 1
                        < polls.drop_first().len() && polls.drop_first()[i - 1] >= deadline);
            }
        }
    }
}

/// Debounce coalescing: three queries typed within the quiet period of one
/// another yield exactly one search invocation, for the last of them, once
/// the host polls past the final deadline. The `polls` sequences are the
/// deadline checks the host makes between and after the keystrokes.
pub proof fn lemma_burst_coalesces_to_latest(
    q1: Seq<char>,
    q2: Seq<char>,
    q3: Seq<char>,
    t1: int,
    t2: int,
    t3: int,
    polls1: Seq<int>,
    polls2: Seq<int>,
    polls3: Seq<int>,
)
    requires
        t1 <= t2 < t1 + QUIET_PERIOD_MS,
        t2 <= t3 < t2 + QUIET_PERIOD_MS,
        forall|i: int| 0 <= i < polls1.len() ==> polls1[i] <= t2,
        forall|i: int| 0 <= i < polls2.len() ==> polls2[i] <= t3,
        exists|i: int| 0 <= i < polls3.len() && polls3[i] >= t3 + QUIET_PERIOD_MS,
    ensures
        ({
            let m1 = spec_submit(DebounceModel::Idle, q1, t1);
            let (m1p, fired1) = run_polls(m1, polls1);
            let m2 = spec_submit(m1p, q2, t2);
            let (m2p, fired2) = run_polls(m2, polls2);
            let m3 = spec_submit(m2p, q3, t3);
            let (m3p, fired3) = run_polls(m3, polls3);
            &&& fired1 == Seq::<Seq<char>>::empty()
            &&& fired2 == Seq::<Seq<char>>::empty()
            &&& fired3 == seq![q3]
            &&& m3p == DebounceModel::Busy { queued: None::<Seq<char>> }
        }),
{
    lemma_early_polls_are_silent(q1, t1 + QUIET_PERIOD_MS, polls1);
    lemma_early_polls_are_silent(q2, t2 + QUIET_PERIOD_MS, polls2);
    lemma_waiting_query_fires_at_most_once(q3, t3 + QUIET_PERIOD_MS, polls3);
    let (m3p, fired3) = run_polls(
        DebounceModel::Quiet { query: q3, deadline: t3 + QUIET_PERIOD_MS },
        polls3,
    );
    assert(fired3.len() == 1);
    assert(fired3 =~= seq![q3]);
    lemma_poll_run_from_quiet_ends_busy_or_quiet(q3, t3 + QUIET_PERIOD_MS, polls3);
}

/// After its query is dispatched, a poll run leaves the debouncer busy with
/// nothing queued; before that it is still waiting.
proof fn lemma_poll_run_from_quiet_ends_busy_or_quiet(query: Seq<char>, deadline: int, polls: Seq<int>)
    ensures
        ({
            let (m, fired) = run_polls(DebounceModel::Quiet { query, deadline }, polls);
            &&& fired.len() == 1 ==> m == DebounceModel::Busy { queued: None::<Seq<char>> }
            &&& fired.len() == 0 ==> m == DebounceModel::Quiet { query, deadline }
        }),
    decreases polls.len(),
{
    lemma_waiting_query_fires_at_most_once(query, deadline, polls);
    if polls.len() > 0 {
        if polls[0] >= deadline {
            lemma_polls_without_waiting_query_are_silent(
                DebounceModel::Busy { queued: None },
                polls.drop_first(),
            );
        } else {
            lemma_poll_run_from_quiet_ends_busy_or_quiet(query, deadline, polls.drop_first());
        }
    }
}

/// Anything the host can report to the debouncer.
pub enum DebounceEvent {
    Submit(Seq<char>, int),
    Poll(int),
    Complete(int),
}

/// One reported event; the second component counts a dispatched search,
/// the third a completed one.
pub open spec fn event_step(m: DebounceModel, e: DebounceEvent) -> (DebounceModel, int, int) {
    match e {
        DebounceEvent::Submit(q, now) => (spec_submit(m, q, now), 0, 0),
        DebounceEvent::Poll(now) => {
            let (m1, fired) = spec_poll(m, now);
            (m1, if fired is Some { 1int } else { 0int }, 0)
        },
        DebounceEvent::Complete(now) => (
            spec_complete(m, now),
            0,
            if m is Busy { 1int } else { 0int },
        ),
    }
}

/// The debouncer after a whole sequence of reported events, with how many
/// searches it dispatched and how many completed.
pub open spec fn run_events(m: DebounceModel, es: Seq<DebounceEvent>) -> (DebounceModel, int, int)
    decreases es.len(),
{
    if es.len() == 0 {
        (m, 0, 0)
    } else {
        let (m1, s1, c1) = event_step(m, es[0]);
        let (m2, s2, c2) = run_events(m1, es.drop_first());
        (m2, s1 + s2, c1 + c2)
    }
}

/// Backpressure: however the host drives the debouncer, at most one search
/// is ever in flight — searches dispatched never outrun searches completed
/// by more than one, and by exactly one while the debouncer is busy.
pub proof fn lemma_at_most_one_search_in_flight(m: DebounceModel, es: Seq<DebounceEvent>)
    ensures
        ({
            let (mf, started, completed) = run_events(m, es);
            let before: int = if m is Busy { 1 } else { 0 };
            let after: int = if mf is Busy { 1 } else { 0 };
            before + started == completed + after
        }),
    decreases es.len(),
{
    if es.len() > 0 {
        lemma_at_most_one_search_in_flight(event_step(m, es[0]).0, es.drop_first());
    }
}

/// Latest-wins while busy: a query submitted during an in-flight search is
/// not dropped; once that search completes it is debounced and dispatched
/// in turn.
pub proof fn lemma_query_during_search_is_dispatched(
    qb: Seq<char>,
    t_submit: int,
    t_done: int,
    t_poll: int,
)
    requires
        t_poll >= t_done + QUIET_PERIOD_MS,
    ensures
        ({
            let m1 = spec_submit(DebounceModel::Busy { queued: None }, qb, t_submit);
            let m2 = spec_complete(m1, t_done);
            let (m3, fired) = spec_poll(m2, t_poll);
            &&& m1 == DebounceModel::Busy { queued: Some(qb) }
            &&& m2 == DebounceModel::Quiet { query: qb, deadline: t_done + QUIET_PERIOD_MS }
            &&& fired == Some(qb)
            &&& m3 == DebounceModel::Busy { queued: None::<Seq<char>> }
        }),
{
}

} // verus!
