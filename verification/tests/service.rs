use timed_routes::error::{translate_error, HandlerError};
use timed_routes::http::{html_response, Method, Request, Response};
use timed_routes::logging::{log_line, Logger, LoggerLayer};
use timed_routes::pipeline::{compose_chain, handle, not_found_response, LayerKind};
use timed_routes::route::{made_it_response, parse_delay, root_response, route, Route};
use timed_routes::timeout::{delay_times_out, guard_outcome, RaceResult, DEADLINE_MS};

fn get(path: &str) -> Request {
    Request { method: Method::Get, path: path.to_string() }
}

fn is_html(r: &Response) -> bool {
    r.headers.iter().any(|h| h.name == "content-type" && h.value == "text/html")
}

#[test]
fn root_is_always_ok() {
    let (_, r) = handle(&get("/"), DEADLINE_MS);
    assert_eq!(r.status, 200);
    assert_eq!(r.body, "<h1>Hello, World!</h1>");
    assert!(is_html(&r));
}

#[test]
fn root_ok_under_any_deadline() {
    for deadline in [0, 1, 300, u64::MAX] {
        let (_, r) = handle(&get("/"), deadline);
        assert_eq!(r.status, 200);
        assert_eq!(r.body, "<h1>Hello, World!</h1>");
    }
}

#[test]
fn fast_delay_makes_it() {
    let (_, r) = handle(&get("/50"), 300);
    assert_eq!(r.status, 200);
    assert_eq!(r.body, "<h1>Made it!</h1>");
    assert!(is_html(&r));
}

#[test]
fn slow_delay_times_out() {
    let (_, r) = handle(&get("/500"), 300);
    assert_eq!(r.status, 408);
    assert_eq!(r.body, "<h1>Request took too long</h1>");
    assert!(is_html(&r));
}

#[test]
fn huge_delay_times_out_too() {
    let (_, r) = handle(&get("/18446744073709551615"), 300);
    assert_eq!(r.status, 408);
    assert_eq!(r.body, "<h1>Request took too long</h1>");
}

#[test]
fn zero_delay_completes() {
    let (_, r) = handle(&get("/0"), 300);
    assert_eq!(r.status, 200);
    assert_eq!(r.body, "<h1>Made it!</h1>");
}

#[test]
fn boundary_delay_is_consistent() {
    let (_, first) = handle(&get("/300"), 300);
    let (_, second) = handle(&get("/300"), 300);
    assert_eq!(first.status, second.status);
    assert_eq!(first.body, second.body);
    // The chosen resolution of an exact tie is the deadline's.
    assert_eq!(first.status, 408);
}

#[test]
fn repeat_same_outcome_class() {
    for path in ["/", "/0", "/50", "/299", "/300", "/500", "/abc"] {
        let (_, a) = handle(&get(path), 300);
        let (_, b) = handle(&get(path), 300);
        assert_eq!(a.status, b.status);
        assert_eq!(a.body, b.body);
    }
}

#[test]
fn malformed_parameter_is_translated_to_500() {
    let (_, r) = handle(&get("/abc"), 300);
    assert_eq!(r.status, 500);
    assert!(r.body.contains("invalid delay parameter"));
    assert!(is_html(&r));
}

#[test]
fn trailing_garbage_is_translated_to_500() {
    let (_, r) = handle(&get("/12a"), 300);
    assert_eq!(r.status, 500);
    assert!(r.body.contains("invalid delay parameter"));
}

#[test]
fn overflowing_parameter_is_translated_to_500() {
    let (_, r) = handle(&get("/99999999999999999999"), 300);
    assert_eq!(r.status, 500);
    assert!(r.body.contains("invalid delay parameter"));
}

#[test]
fn unrouted_paths_get_404() {
    for path in ["", "/a/b", "nope"] {
        let (_, r) = handle(&get(path), 300);
        assert_eq!(r.status, 404, "path {:?}", path);
        assert_eq!(r.body, "");
    }
}

#[test]
fn every_request_is_logged_once_before_the_reply() {
    for path in ["/", "/50", "/500", "/abc", "/a/b"] {
        let (log, _) = handle(&get(path), 300);
        assert_eq!(log, format!("processing GET {}", path));
    }
}

#[test]
fn log_line_has_method_and_path() {
    assert_eq!(log_line(&Method::Get, "/50"), "processing GET /50");
    assert_eq!(log_line(&Method::Post, "/"), "processing POST /");
    assert_eq!(log_line(&Method::Delete, "/x"), "processing DELETE /x");
}

#[test]
fn logger_layer_wraps_and_observes() {
    let layer = LoggerLayer::new();
    let logger: Logger<u32> = layer.layer(7);
    assert_eq!(logger.inner, 7);
    let logger2 = Logger::new(8u32);
    assert_eq!(logger2.inner, 8);
    let line = logger.observe(&get("/500"));
    assert_eq!(line, "processing GET /500");
}

#[test]
fn route_dispatch() {
    assert!(matches!(route("/"), Route::Root));
    match route("/50") {
        Route::Delay { param } => assert_eq!(param, "50"),
        _ => panic!("expected the delay route"),
    }
    match route("/abc") {
        Route::Delay { param } => assert_eq!(param, "abc"),
        _ => panic!("expected the delay route"),
    }
    assert!(matches!(route(""), Route::NotFound));
    assert!(matches!(route("/a/b"), Route::NotFound));
    assert!(matches!(route("x"), Route::NotFound));
}

#[test]
fn parse_delay_values() {
    assert_eq!(parse_delay("0").unwrap(), 0);
    assert_eq!(parse_delay("50").unwrap(), 50);
    assert_eq!(parse_delay("300").unwrap(), 300);
    assert_eq!(parse_delay("007").unwrap(), 7);
    assert_eq!(parse_delay("18446744073709551615").unwrap(), u64::MAX);
}

#[test]
fn parse_delay_failures() {
    for bad in ["", "abc", "12a", "-1", " 5", "18446744073709551616"] {
        match parse_delay(bad) {
            Err(HandlerError::Other { message }) => {
                assert_eq!(message, "invalid delay parameter", "input {:?}", bad)
            }
            _ => panic!("expected a parse failure for {:?}", bad),
        }
    }
}

#[test]
fn elapsed_translates_to_408() {
    let r = translate_error(HandlerError::Elapsed);
    assert_eq!(r.status, 408);
    assert_eq!(r.body, "<h1>Request took too long</h1>");
    assert!(is_html(&r));
}

#[test]
fn other_errors_translate_to_500_with_message() {
    let r = translate_error(HandlerError::Other { message: "boom".to_string() });
    assert_eq!(r.status, 500);
    assert_eq!(r.body, "<h1>Unhandled internal error</h1><p>boom</p>");
    assert!(is_html(&r));
}

#[test]
fn guard_passes_inner_results_verbatim() {
    let ok = guard_outcome(RaceResult::InnerFirst { result: Ok(made_it_response()) });
    assert_eq!(ok.unwrap().status, 200);
    let own_error = Err(HandlerError::Other { message: "boom".to_string() });
    match guard_outcome(RaceResult::InnerFirst { result: own_error }) {
        Err(HandlerError::Other { message }) => assert_eq!(message, "boom"),
        _ => panic!("expected the inner error back unchanged"),
    }
}

#[test]
fn guard_turns_deadline_into_elapsed() {
    match guard_outcome(RaceResult::DeadlineFirst) {
        Err(HandlerError::Elapsed) => {}
        _ => panic!("expected the elapsed error"),
    }
}

#[test]
fn race_decision_around_the_deadline() {
    assert!(!delay_times_out(0, DEADLINE_MS));
    assert!(!delay_times_out(299, DEADLINE_MS));
    assert!(delay_times_out(300, DEADLINE_MS));
    assert!(delay_times_out(u64::MAX, DEADLINE_MS));
}

#[test]
fn handlers_build_their_fixed_replies() {
    let root = root_response();
    assert_eq!(root.status, 200);
    assert_eq!(root.body, "<h1>Hello, World!</h1>");
    assert!(is_html(&root));
    let made = made_it_response();
    assert_eq!(made.status, 200);
    assert_eq!(made.body, "<h1>Made it!</h1>");
    assert!(is_html(&made));
    let nf = not_found_response();
    assert_eq!(nf.status, 404);
    assert_eq!(nf.body, "");
    let custom = html_response(204, "x".to_string());
    assert_eq!(custom.status, 204);
    assert!(is_html(&custom));
}

#[test]
fn chain_puts_logging_outside_timeout() {
    let chain = compose_chain();
    assert_eq!(chain, vec![LayerKind::Logging, LayerKind::Timeout]);
}
