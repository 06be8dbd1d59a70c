//! The error taxonomy and the error translator: the single point where every
//! failure of the handler chain becomes a concrete HTTP response.

use vstd::prelude::*;
use crate::http::{Response, html_response, timeout_body};

verus! {

/// Why a handler chain failed: either the deadline elapsed before the inner
/// handler finished, or the handler itself failed with a message. The
/// deadline case carries no data, so the translator tells it apart by its
/// tag rather than by looking at a message.
#[derive(Debug)]
pub enum HandlerError {
    Elapsed,
    Other { message: String },
}

/// The page body wrapped around a failure message.
pub open spec fn error_body(message: Seq<char>) -> Seq<char> {
    "<h1>Unhandled internal error</h1><p>"@ + message + "</p>"@
}

/// The status the translator picks for an error: 408 for the deadline
/// error, 500 for everything else.
pub open spec fn spec_translate_status(e: HandlerError) -> u16 {
    if e is Elapsed {
        408
    } else {
        500
    }
}

/// The body the translator picks for an error.
pub open spec fn spec_translate_body(e: HandlerError) -> Seq<char> {
    match e {
        HandlerError::Elapsed => timeout_body(),
        HandlerError::Other { message } => error_body(message@),
    }
}

/// Builds the internal-error response around a failure message: status 500,
/// an HTML content type, and the message embedded in the page body.
pub fn error_response(message: String) -> (r: Response)
    ensures
        r.status == 500,
        r.body@ == error_body(message@),
        r.wf(),
        r.is_html(),
{
    let body = String::from_str("<h1>Unhandled internal error</h1><p>").concat(
        message.as_str(),
    ).concat("</p>");
    html_response(500, body)
}

/// The error translator: the last line of defense before the transport
/// layer. It never fails and always yields a well-formed HTML response;
/// the deadline error becomes 408 with a fixed body, every other error
/// becomes 500 with its message embedded.
pub fn translate_error(e: HandlerError) -> (r: Response)
    ensures
        r.status == spec_translate_status(e),
        r.body@ == spec_translate_body(e),
        r.wf(),
        r.is_html(),
{
    match e {
        HandlerError::Elapsed => html_response(
            408,
            String::from_str("<h1>Request took too long</h1>"),
        ),
        HandlerError::Other { message } => error_response(message),
    }
}

/// No error escapes untranslated: the translator is total, its status is
/// always one of the two defined failure replies, and 408 is reserved for
/// the deadline error alone.
pub proof fn lemma_error_translation_total(e: HandlerError)
    ensures
        spec_translate_status(e) == 408 || spec_translate_status(e) == 500,
        spec_translate_status(e) == 408 <==> e is Elapsed,
{
}

} // verus!
