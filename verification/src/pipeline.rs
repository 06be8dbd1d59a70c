//! The composed pipeline: logging outside, the timeout guard inside, route
//! dispatch at the centre, and the error translator on every failure path.
//! `handle` pins the log line and the response down as a function of the
//! request and the deadline; the lemmas state the service's laws over that
//! function.

use vstd::prelude::*;
use crate::http::{Request, Response, hello_body, made_it_body, timeout_body};
use crate::error::{HandlerError, error_body, translate_error};
use crate::logging::{log_line, spec_log_line};
use crate::route::{
    Route,
    route,
    parse_delay,
    root_response,
    made_it_response,
    is_root_path,
    is_param_path,
    param_of,
    valid_delay,
    digits_val,
    is_digit,
    lemma_digits_val_nonneg,
    parse_error_message,
};
use crate::timeout::{RaceResult, guard_outcome, times_out, delay_times_out};

verus! {

/// A layer of the middleware chain.
#[derive(Clone, Copy, PartialEq, Eq, Structural, Debug)]
pub enum LayerKind {
    Logging,
    Timeout,
}

/// The logging layer observes every request that reaches dispatch,
/// including ones that later time out: both layers are present and every
/// logging layer sits outside (before) every timeout layer.
pub open spec fn logging_observes_all(c: Seq<LayerKind>) -> bool {
    &&& exists|i: int| 0 <= i < c.len() && c[i] is Logging
    &&& exists|j: int| 0 <= j < c.len() && c[j] is Timeout
    &&& forall|i: int, j: int|
        0 <= i < c.len() && 0 <= j < c.len() && c[i] is Logging && c[j] is Timeout ==> i < j
}

/// The middleware chain, outermost first.
pub fn compose_chain() -> (c: Vec<LayerKind>)
    ensures
        c@ == seq![LayerKind::Logging, LayerKind::Timeout],
        logging_observes_all(c@),
{
    let mut c: Vec<LayerKind> = Vec::new();
    c.push(LayerKind::Logging);
    c.push(LayerKind::Timeout);
    proof {
        assert(c@ =~= seq![LayerKind::Logging, LayerKind::Timeout]);
        assert(c@[0] is Logging);
        assert(c@[1] is Timeout);
    }
    c
}

/// How a request ends: a successful reply, cut off by the deadline, failed
/// in the handler, or addressed to no route.
#[derive(Clone, Copy, PartialEq, Eq, Structural, Debug)]
pub enum OutcomeClass {
    Success,
    TimedOut,
    Failed,
    NoRoute,
}

/// The outcome class as a function of the path and the deadline alone.
pub open spec fn spec_class(p: Seq<char>, deadline_ms: u64) -> OutcomeClass {
    if is_root_path(p) {
        OutcomeClass::Success
    } else if is_param_path(p) {
        if !valid_delay(param_of(p)) {
            OutcomeClass::Failed
        } else if times_out(digits_val(param_of(p)) as u64, deadline_ms) {
            OutcomeClass::TimedOut
        } else {
            OutcomeClass::Success
        }
    } else {
        OutcomeClass::NoRoute
    }
}

/// The status each outcome class is answered with.
pub open spec fn status_of(c: OutcomeClass) -> u16 {
    match c {
        OutcomeClass::Success => 200,
        OutcomeClass::TimedOut => 408,
        OutcomeClass::Failed => 500,
        OutcomeClass::NoRoute => 404,
    }
}

/// The status sent for a path under a deadline.
pub open spec fn spec_status(p: Seq<char>, deadline_ms: u64) -> u16 {
    status_of(spec_class(p, deadline_ms))
}

/// The body sent for a path under a deadline.
pub open spec fn spec_body(p: Seq<char>, deadline_ms: u64) -> Seq<char> {
    if is_root_path(p) {
        hello_body()
    } else if is_param_path(p) {
        if !valid_delay(param_of(p)) {
            error_body(parse_error_message())
        } else if times_out(digits_val(param_of(p)) as u64, deadline_ms) {
            timeout_body()
        } else {
            made_it_body()
        }
    } else {
        Seq::empty()
    }
}

/// The reply to a path that matches no route.
pub fn not_found_response() -> (r: Response)
    ensures
        r.status == 404,
        r.body@ == Seq::<char>::empty(),
        r.wf(),
{
    Response { status: 404, headers: Vec::new(), body: String::new() }
}

/// The whole per-request pipeline as a function of the request and the
/// deadline: the log line the logging layer records before dispatch, and
/// the response the client receives. The runtime performs the actual
/// waiting and racing; which side wins the race for a delay of `n`
/// milliseconds is `times_out(n, deadline_ms)`.
///
/// The log line comes for every request, whatever its outcome; the
/// response's status and body are pinned for every path, so a repeat of the
/// same request yields the same outcome.
pub fn handle(req: &Request, deadline_ms: u64) -> (r: (String, Response))
    ensures
        r.0@ == spec_log_line(req.method, req.path@),
        r.1.status == spec_status(req.path@, deadline_ms),
        r.1.body@ == spec_body(req.path@, deadline_ms),
        r.1.wf(),
        spec_class(req.path@, deadline_ms) != OutcomeClass::NoRoute ==> r.1.is_html(),
{
    let log = log_line(&req.method, req.path.as_str());
    let outcome: Result<Response, HandlerError> = match route(req.path.as_str()) {
        Route::Root => Ok(root_response()),
        Route::Delay { param } => match parse_delay(param.as_str()) {
            Err(e) => guard_outcome(RaceResult::InnerFirst { result: Err(e) }),
            Ok(n) => {
                if delay_times_out(n, deadline_ms) {
                    guard_outcome(RaceResult::DeadlineFirst)
                } else {
                    guard_outcome(RaceResult::InnerFirst { result: Ok(made_it_response()) })
                }
            },
        },
        Route::NotFound => {
            return (log, not_found_response());
        },
    };
    let resp = match outcome {
        Ok(resp) => resp,
        Err(e) => translate_error(e),
    };
    (log, resp)
}

/// The root route always succeeds: for every deadline, the answer is 200
/// with the fixed greeting body.
pub proof fn lemma_root_always_ok(deadline_ms: u64)
    ensures
        spec_status("/"@, deadline_ms) == 200,
        spec_body("/"@, deadline_ms) == hello_body(),
{
    reveal_strlit("/");
    assert(is_root_path("/"@));
}

/// A valid delay below the deadline beats the race: the answer is 200 with
/// the fixed success body.
pub proof fn lemma_fast_delay_ok(p: Seq<char>, deadline_ms: u64)
    requires
        is_param_path(p),
        valid_delay(param_of(p)),
        digits_val(param_of(p)) < deadline_ms,
    ensures
        spec_status(p, deadline_ms) == 200,
        spec_body(p, deadline_ms) == made_it_body(),
{
    lemma_digits_val_nonneg(param_of(p));
}

/// A valid delay at or past the deadline loses the race: the answer is 408
/// with the fixed timeout body, however large the delay — the client is
/// never kept waiting for it.
pub proof fn lemma_slow_delay_times_out(p: Seq<char>, deadline_ms: u64)
    requires
        is_param_path(p),
        valid_delay(param_of(p)),
        digits_val(param_of(p)) >= deadline_ms,
    ensures
        spec_status(p, deadline_ms) == 408,
        spec_body(p, deadline_ms) == timeout_body(),
{
    lemma_digits_val_nonneg(param_of(p));
}

/// A delay of zero completes immediately and successfully under any
/// positive deadline.
pub proof fn lemma_zero_delay_ok(p: Seq<char>, deadline_ms: u64)
    requires
        is_param_path(p),
        param_of(p) == seq!['0'],
        deadline_ms > 0,
    ensures
        spec_status(p, deadline_ms) == 200,
        spec_body(p, deadline_ms) == made_it_body(),
{
    let param = param_of(p);
    assert(param.len() == 1 && param[0] == '0');
    assert(param.drop_last() =~= Seq::<char>::empty());
    assert(digits_val(Seq::<char>::empty()) == 0);
    assert(param.last() == '0');
    assert(digits_val(param) == 0);
    assert forall|i: int| 0 <= i < param.len() implies is_digit(#[trigger] param[i]) by {
        assert(i == 0);
    }
    assert(valid_delay(param));
}

/// Idempotence: the outcome class is a function of the path and the
/// deadline alone, so repeating a request yields the same class — and with
/// it the same status — every time.
pub proof fn lemma_repeat_same_outcome(p: Seq<char>, deadline_ms: u64, c1: OutcomeClass, c2: OutcomeClass)
    requires
        c1 == spec_class(p, deadline_ms),
        c2 == spec_class(p, deadline_ms),
    ensures
        c1 == c2,
        status_of(c1) == status_of(c2),
{
}

/// Whatever the path and the deadline, the client is answered with one of
/// the defined replies: no raw error and no hang reaches the transport.
pub proof fn lemma_always_answered(p: Seq<char>, deadline_ms: u64)
    ensures
        spec_status(p, deadline_ms) == 200 || spec_status(p, deadline_ms) == 408 || spec_status(
            p,
            deadline_ms,
        ) == 500 || spec_status(p, deadline_ms) == 404,
{
}

} // verus!
