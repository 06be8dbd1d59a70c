//! The life of one request as a state machine:
//! `Received → Logged → Dispatching → {Completed | TimedOut | Failed} →
//! Responded`. Every failure path is funnelled through the error translator
//! before `Responded`, so there is no raw-error exit, and the log entry is
//! always the first thing that happens.

use vstd::prelude::*;

verus! {

/// Where a request stands.
#[derive(Clone, Copy, PartialEq, Eq, Structural, Debug)]
pub enum Phase {
    Received,
    Logged,
    Dispatching,
    Completed,
    TimedOut,
    Failed,
    Responded,
}

/// What can happen to a request.
#[derive(Clone, Copy, PartialEq, Eq, Structural, Debug)]
pub enum Event {
    /// The logging layer records the request.
    Log,
    /// The request is handed to route dispatch.
    Dispatch,
    /// The inner handler finished within the deadline.
    Complete,
    /// The deadline elapsed first.
    Elapse,
    /// The inner handler failed with its own error.
    Fail,
    /// A response is written to the client; for `TimedOut` and `Failed`
    /// it is the error translator's response.
    Respond,
}

/// The transition table: `None` is an event that cannot happen in that
/// phase.
pub open spec fn spec_step(s: Phase, e: Event) -> Option<Phase> {
    match (s, e) {
        (Phase::Received, Event::Log) => Some(Phase::Logged),
        (Phase::Logged, Event::Dispatch) => Some(Phase::Dispatching),
        (Phase::Dispatching, Event::Complete) => Some(Phase::Completed),
        (Phase::Dispatching, Event::Elapse) => Some(Phase::TimedOut),
        (Phase::Dispatching, Event::Fail) => Some(Phase::Failed),
        (Phase::Completed, Event::Respond) => Some(Phase::Responded),
        (Phase::TimedOut, Event::Respond) => Some(Phase::Responded),
        (Phase::Failed, Event::Respond) => Some(Phase::Responded),
        _ => None,
    }
}

/// Advances a request by one event.
pub fn step(s: Phase, e: Event) -> (r: Option<Phase>)
    ensures
        r == spec_step(s, e),
{
    match (s, e) {
        (Phase::Received, Event::Log) => Some(Phase::Logged),
        (Phase::Logged, Event::Dispatch) => Some(Phase::Dispatching),
        (Phase::Dispatching, Event::Complete) => Some(Phase::Completed),
        (Phase::Dispatching, Event::Elapse) => Some(Phase::TimedOut),
        (Phase::Dispatching, Event::Fail) => Some(Phase::Failed),
        (Phase::Completed, Event::Respond) => Some(Phase::Responded),
        (Phase::TimedOut, Event::Respond) => Some(Phase::Responded),
        (Phase::Failed, Event::Respond) => Some(Phase::Responded),
        _ => None,
    }
}

/// Runs a trace of events from a phase; `None` as soon as one event is
/// impossible.
pub open spec fn run(s: Phase, t: Seq<Event>) -> Option<Phase>
    decreases t.len(),
{
    if t.len() == 0 {
        Some(s)
    } else {
        match spec_step(s, t[0]) {
            Some(s2) => run(s2, t.subrange(1, t.len() as int)),
            None => None,
        }
    }
}

/// How many log events a trace holds.
pub open spec fn count_log(t: Seq<Event>) -> int
    decreases t.len(),
{
    if t.len() == 0 {
        0
    } else {
        (if t[0] is Log {
            1int
        } else {
            0int
        }) + count_log(t.subrange(1, t.len() as int))
    }
}

/// An event that settles the race: completion, deadline, or failure.
pub open spec fn is_outcome(e: Event) -> bool {
    e is Complete || e is Elapse || e is Fail
}

/// How many outcome events a trace holds.
pub open spec fn count_outcomes(t: Seq<Event>) -> int
    decreases t.len(),
{
    if t.len() == 0 {
        0
    } else {
        (if is_outcome(t[0]) {
            1int
        } else {
            0int
        }) + count_outcomes(t.subrange(1, t.len() as int))
    }
}

/// Once a request has been received and handed on, it is never back in
/// `Received`, so no second log event is possible: a valid trace from any
/// later phase holds none.
proof fn lemma_no_log_past_received(s: Phase, t: Seq<Event>)
    requires
        s != Phase::Received,
        run(s, t) is Some,
    ensures
        count_log(t) == 0,
    decreases t.len(),
{
    if t.len() > 0 {
        let s2 = spec_step(s, t[0])->Some_0;
        assert(s2 != Phase::Received);
        assert(t[0] !is Log);
        lemma_no_log_past_received(s2, t.subrange(1, t.len() as int));
    }
}

/// Once the race is settled the request is past `Dispatching` and never
/// returns there, so no second outcome event is possible.
proof fn lemma_no_outcome_past_dispatching(s: Phase, t: Seq<Event>)
    requires
        s != Phase::Received,
        s != Phase::Logged,
        s != Phase::Dispatching,
        run(s, t) is Some,
    ensures
        count_outcomes(t) == 0,
    decreases t.len(),
{
    if t.len() > 0 {
        let s2 = spec_step(s, t[0])->Some_0;
        assert(!is_outcome(t[0]));
        lemma_no_outcome_past_dispatching(s2, t.subrange(1, t.len() as int));
    }
}

/// The race is settled at most once, wherever the trace starts.
pub proof fn lemma_at_most_one_outcome(s: Phase, t: Seq<Event>)
    requires
        run(s, t) is Some,
    ensures
        count_outcomes(t) <= 1,
    decreases t.len(),
{
    if t.len() > 0 {
        let s2 = spec_step(s, t[0])->Some_0;
        let rest = t.subrange(1, t.len() as int);
        if is_outcome(t[0]) {
            lemma_no_outcome_past_dispatching(s2, rest);
        } else {
            lemma_at_most_one_outcome(s2, rest);
        }
    }
}

/// A request that is on its way — received, logged, or dispatching — only
/// reaches `Responded` by settling the race.
proof fn lemma_responded_needs_outcome(s: Phase, t: Seq<Event>)
    requires
        s == Phase::Received || s == Phase::Logged || s == Phase::Dispatching,
        run(s, t) == Some(Phase::Responded),
    ensures
        count_outcomes(t) >= 1,
    decreases t.len(),
{
    assert(t.len() > 0);
    let s2 = spec_step(s, t[0])->Some_0;
    let rest = t.subrange(1, t.len() as int);
    assert(spec_step(s, t[0]) is Some);
    if !is_outcome(t[0]) {
        assert(s2 == Phase::Logged || s2 == Phase::Dispatching);
        lemma_responded_needs_outcome(s2, rest);
    } else {
        lemma_no_outcome_past_dispatching(s2, rest);
    }
}

/// Whatever settles the race — completion, the deadline, or a failure —
/// the request's full trace is lawful and ends in `Responded`: every
/// failure path, not only success, funnels into a response.
pub proof fn lemma_every_outcome_reaches_responded(e: Event)
    requires
        is_outcome(e),
    ensures
        run(Phase::Received, seq![Event::Log, Event::Dispatch, e, Event::Respond]) == Some(
            Phase::Responded,
        ),
{
    reveal_with_fuel(run, 5);
    let t = seq![Event::Log, Event::Dispatch, e, Event::Respond];
    assert(t.subrange(1, 4) =~= seq![Event::Dispatch, e, Event::Respond]);
    assert(seq![Event::Dispatch, e, Event::Respond].subrange(1, 3) =~= seq![e, Event::Respond]);
    assert(seq![e, Event::Respond].subrange(1, 2) =~= seq![Event::Respond]);
    assert(seq![Event::Respond].subrange(1, 1) =~= Seq::<Event>::empty());
}

/// Every request that reached `Responded` was logged exactly once, the log
/// entry came before anything else — in particular before any response was
/// sent — and the race was settled exactly once, by completion, deadline,
/// or failure.
pub proof fn lemma_completed_request_shape(t: Seq<Event>)
    requires
        run(Phase::Received, t) == Some(Phase::Responded),
    ensures
        t.len() > 0,
        t[0] == Event::Log,
        count_log(t) == 1,
        count_outcomes(t) == 1,
{
    let rest = t.subrange(1, t.len() as int);
    assert(spec_step(Phase::Received, t[0]) is Some);
    lemma_no_log_past_received(Phase::Logged, rest);
    lemma_responded_needs_outcome(Phase::Logged, rest);
    lemma_at_most_one_outcome(Phase::Logged, rest);
}

} // verus!
