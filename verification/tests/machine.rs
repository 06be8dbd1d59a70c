use timed_routes::machine::{step, Event, Phase};

fn run(mut s: Phase, trace: &[Event]) -> Option<Phase> {
    for e in trace {
        match step(s, *e) {
            Some(next) => s = next,
            None => return None,
        }
    }
    Some(s)
}

#[test]
fn success_path_reaches_responded() {
    let trace = [Event::Log, Event::Dispatch, Event::Complete, Event::Respond];
    assert_eq!(run(Phase::Received, &trace), Some(Phase::Responded));
}

#[test]
fn timeout_path_reaches_responded() {
    let trace = [Event::Log, Event::Dispatch, Event::Elapse, Event::Respond];
    assert_eq!(run(Phase::Received, &trace), Some(Phase::Responded));
}

#[test]
fn failure_path_reaches_responded() {
    let trace = [Event::Log, Event::Dispatch, Event::Fail, Event::Respond];
    assert_eq!(run(Phase::Received, &trace), Some(Phase::Responded));
}

#[test]
fn nothing_precedes_the_log() {
    assert_eq!(step(Phase::Received, Event::Dispatch), None);
    assert_eq!(step(Phase::Received, Event::Complete), None);
    assert_eq!(step(Phase::Received, Event::Respond), None);
    assert_eq!(step(Phase::Received, Event::Log), Some(Phase::Logged));
}

#[test]
fn no_second_log_or_outcome() {
    assert_eq!(step(Phase::Logged, Event::Log), None);
    assert_eq!(step(Phase::Dispatching, Event::Log), None);
    assert_eq!(step(Phase::Completed, Event::Elapse), None);
    assert_eq!(step(Phase::TimedOut, Event::Complete), None);
    assert_eq!(step(Phase::Failed, Event::Fail), None);
}

#[test]
fn responded_is_terminal() {
    for e in [Event::Log, Event::Dispatch, Event::Complete, Event::Elapse, Event::Fail,
        Event::Respond] {
        assert_eq!(step(Phase::Responded, e), None);
    }
}

#[test]
fn every_outcome_funnels_through_respond() {
    for outcome in [Phase::Completed, Phase::TimedOut, Phase::Failed] {
        assert_eq!(step(outcome, Event::Respond), Some(Phase::Responded));
        assert_eq!(step(outcome, Event::Dispatch), None);
    }
}
