//! A verified model of a small HTTP service built from layered middleware:
//! a request logger wrapping a timeout guard wrapping two route handlers,
//! with an error translator that turns every failure into a well-formed
//! response.
//!
//! The asynchronous runtime (sockets, timers, the actual deadline race) is
//! outside this library; everything here is the decision logic: routing,
//! parsing the delay parameter, the outcome of the deadline race as a
//! function of the requested delay, the translation of errors to responses,
//! and the per-request state machine.

pub mod error;
pub mod http;
pub mod logging;
pub mod machine;
pub mod pipeline;
pub mod route;
pub mod timeout;
