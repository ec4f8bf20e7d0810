//! What a call returns for each transport outcome.
//!
//! The daemon's response body is returned verbatim. A transport failure is
//! swallowed: the caller receives the empty string, indistinguishable from a
//! daemon response whose body happens to be empty. That is the behaviour the
//! library promises, so it is stated here exactly rather than left implicit.

use vstd::prelude::*;

verus! {

/// The text a call hands back, given what came over the socket: the response
/// body when one was delivered, the empty string when the transport failed.
pub open spec fn delivered_text(delivered: Option<String>) -> Seq<char> {
    match delivered {
        Option::Some(body) => body@,
        Option::None => Seq::<char>::empty(),
    }
}

/// Turn a transport outcome into the text a call returns.
///
/// `delivered` is `Some` with the full response body when the daemon
/// answered, `None` when the request never got an answer.
pub fn response_or_empty(delivered: Option<String>) -> (r: String)
    ensures
        r@ == delivered_text(delivered),
{
    match delivered {
        Option::Some(body) => body,
        Option::None => String::new(),
    }
}

} // verus!
