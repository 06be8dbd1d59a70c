//! Route dispatch and the delay parameter's grammar: the root route, the
//! single-segment delay route, and the decimal parser for its parameter.

use vstd::prelude::*;
use crate::http::{Response, html_response, hello_body, made_it_body};
use crate::error::HandlerError;

verus! {

/// The path of the root route: a single slash.
pub open spec fn is_root_path(p: Seq<char>) -> bool {
    p.len() == 1 && p[0] == '/'
}

/// The path of the delay route: a slash followed by one non-empty segment
/// that itself contains no slash.
pub open spec fn is_param_path(p: Seq<char>) -> bool {
    p.len() >= 2 && p[0] == '/' && (forall|i: int| 1 <= i < p.len() ==> p[i] != '/')
}

/// The delay route's parameter: everything after the leading slash.
pub open spec fn param_of(p: Seq<char>) -> Seq<char> {
    p.subrange(1, p.len() as int)
}

/// Where a path leads: the root route, the delay route with its parameter,
/// or nowhere.
pub enum Route {
    Root,
    Delay { param: String },
    NotFound,
}

/// Dispatches a path to its route.
pub fn route(path: &str) -> (r: Route)
    ensures
        r is Root <==> is_root_path(path@),
        r is Delay <==> is_param_path(path@),
        r matches Route::Delay { param } ==> param@ == param_of(path@),
        r is NotFound <==> !is_root_path(path@) && !is_param_path(path@),
{
    let n = path.unicode_len();
    if n == 0 {
        return Route::NotFound;
    }
    if path.get_char(0) != '/' {
        return Route::NotFound;
    }
    if n == 1 {
        return Route::Root;
    }
    let mut i: usize = 1;
    while i < n
        invariant
            1 <= i <= n,
            n == path@.len(),
            path@[0] == '/',
            forall|j: int| 1 <= j < i ==> path@[j] != '/',
        decreases n - i,
    {
        if path.get_char(i) == '/' {
            return Route::NotFound;
        }
        i += 1;
    }
    let param = String::from_str(path.substring_char(1, n));
    Route::Delay { param }
}

/// Whether a character is a decimal digit.
pub open spec fn is_digit(c: char) -> bool {
    '0' <= c <= '9'
}

/// Whether a string is made of decimal digits alone.
pub open spec fn all_digits(s: Seq<char>) -> bool {
    forall|i: int| 0 <= i < s.len() ==> is_digit(#[trigger] s[i])
}

/// The value of a string of decimal digits, most significant first.
pub open spec fn digits_val(s: Seq<char>) -> int
    decreases s.len(),
{
    if s.len() == 0 {
        0
    } else {
        digits_val(s.drop_last()) * 10 + (s.last() as int - '0' as int)
    }
}

/// A valid delay parameter: non-empty, digits alone, and a value that fits
/// the 64-bit delay argument.
pub open spec fn valid_delay(s: Seq<char>) -> bool {
    s.len() > 0 && all_digits(s) && digits_val(s) <= u64::MAX
}

/// What the parser says when the parameter is not a valid delay.
pub open spec fn parse_error_message() -> Seq<char> {
    "invalid delay parameter"@
}

/// A digit string's value is non-negative.
pub proof fn lemma_digits_val_nonneg(s: Seq<char>)
    requires
        all_digits(s),
    ensures
        digits_val(s) >= 0,
    decreases s.len(),
{
    if s.len() > 0 {
        assert(all_digits(s.drop_last()));
        lemma_digits_val_nonneg(s.drop_last());
    }
}

/// Extending a digit string on the right never shrinks its value: the value
/// of any prefix is a lower bound for the value of the whole.
proof fn lemma_digits_val_prefix_le(s: Seq<char>, k: int)
    requires
        all_digits(s),
        0 <= k <= s.len(),
    ensures
        digits_val(s.subrange(0, k)) <= digits_val(s),
    decreases s.len() - k,
{
    if k == s.len() {
        assert(s.subrange(0, k) =~= s);
    } else {
        let shorter = s.subrange(0, k);
        let longer = s.subrange(0, k + 1);
        assert(longer.drop_last() =~= shorter);
        assert(all_digits(shorter));
        lemma_digits_val_nonneg(shorter);
        assert(is_digit(longer.last()));
        assert(digits_val(shorter) <= digits_val(longer));
        lemma_digits_val_prefix_le(s, k + 1);
    }
}

fn parse_failure() -> (r: Result<u64, HandlerError>)
    ensures
        r matches Err(e) && e matches HandlerError::Other { message } && message@
            == parse_error_message(),
{
    Err(HandlerError::Other { message: String::from_str("invalid delay parameter") })
}

/// Parses the delay parameter as a decimal number of milliseconds. Returns
/// the value exactly when the parameter is a valid delay; everything else —
/// an empty parameter, a non-digit, a value too large for 64 bits — is the
/// one parse failure, an ordinary handler error.
pub fn parse_delay(s: &str) -> (r: Result<u64, HandlerError>)
    ensures
        r matches Ok(n) ==> valid_delay(s@) && n == digits_val(s@),
        valid_delay(s@) ==> r is Ok,
        r is Err ==> !valid_delay(s@),
        r matches Err(e) ==> (e matches HandlerError::Other { message } && message@
            == parse_error_message()),
{
    let n = s.unicode_len();
    if n == 0 {
        return parse_failure();
    }
    let mut acc: u64 = 0;
    let mut i: usize = 0;
    while i < n
        invariant
            0 <= i <= n,
            n == s@.len(),
            all_digits(s@.subrange(0, i as int)),
            acc == digits_val(s@.subrange(0, i as int)),
        decreases n - i,
    {
        let c = s.get_char(i);
        if !('0' <= c && c <= '9') {
            assert(!is_digit(s@[i as int]));
            return parse_failure();
        }
        let d: u64 = (c as u32 - 48) as u64;
        proof {
            let prefix = s@.subrange(0, i as int);
            let longer = s@.subrange(0, i as int + 1);
            assert(longer.drop_last() =~= prefix);
            assert(longer.last() == s@[i as int]);
            assert(all_digits(longer));
            assert(digits_val(longer) == digits_val(prefix) * 10 + d);
        }
        let widened = match acc.checked_mul(10) {
            Some(t) => t.checked_add(d),
            None => None,
        };
        match widened {
            Some(v) => {
                acc = v;
            },
            None => {
                proof {
                    let longer = s@.subrange(0, i as int + 1);
                    assert(digits_val(longer) > u64::MAX);
                    if all_digits(s@) {
                        lemma_digits_val_prefix_le(s@, i as int + 1);
                    }
                }
                return parse_failure();
            },
        }
        i += 1;
    }
    proof {
        assert(s@.subrange(0, n as int) =~= s@);
    }
    Ok(acc)
}

/// The root handler's reply: a constant page. It has no inputs and no
/// failure modes.
pub fn root_response() -> (r: Response)
    ensures
        r.status == 200,
        r.body@ == hello_body(),
        r.wf(),
        r.is_html(),
{
    html_response(200, String::from_str("<h1>Hello, World!</h1>"))
}

/// The delay handler's reply once its wait has completed within the
/// deadline.
pub fn made_it_response() -> (r: Response)
    ensures
        r.status == 200,
        r.body@ == made_it_body(),
        r.wf(),
        r.is_html(),
{
    html_response(200, String::from_str("<h1>Made it!</h1>"))
}

} // verus!
