//! The logging layer: purely observational. It records one line per request,
//! before dispatch, and delegates to the wrapped handler without touching
//! the request, the response, or an error.
//!
//! The runtime drives the delegation and writes the line to its sink; what
//! the line says is fixed here.

use vstd::prelude::*;
use crate::http::{Method, Request};

verus! {

/// The log line recorded for a request: its method and its path.
pub open spec fn spec_log_line(m: Method, path: Seq<char>) -> Seq<char> {
    "processing "@ + m.spec_name() + " "@ + path
}

/// Renders the log line for one request.
pub fn log_line(m: &Method, path: &str) -> (r: String)
    ensures
        r@ == spec_log_line(*m, path@),
{
    String::from_str("processing ").concat(m.name()).concat(" ").concat(path)
}

/// The logging service: holds the wrapped inner handler. Observing a
/// request never alters it, and the inner handler's result or error is
/// passed back unchanged.
pub struct Logger<S> {
    pub inner: S,
}

impl<S> Logger<S> {
    /// Wraps an inner handler.
    pub fn new(inner: S) -> (r: Self)
        ensures
            r.inner == inner,
    {
        Logger { inner }
    }

    /// What the logger records before delegating a request: exactly one
    /// line, whatever the request's eventual outcome.
    pub fn observe(&self, req: &Request) -> (r: String)
        ensures
            r@ == spec_log_line(req.method, req.path@),
    {
        log_line(&req.method, req.path.as_str())
    }
}

/// The layer that wraps a handler in a `Logger`.
pub struct LoggerLayer;

impl LoggerLayer {
    /// Builds the layer; it carries no configuration.
    pub fn new() -> (r: Self) {
        LoggerLayer
    }

    /// Wraps an inner handler.
    pub fn layer<S>(&self, inner: S) -> (r: Logger<S>)
        ensures
            r.inner == inner,
    {
        Logger::new(inner)
    }
}

} // verus!
