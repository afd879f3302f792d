//! The terminal handler: classifies an inbound failure signal and renders
//! the classified outcome into the transport-level response.

use vstd::prelude::*;

use crate::classify::{
    Signal,
    classify,
    diagnostic_spec,
    emits_diagnostic,
    message_of_signal,
    status_spec,
};
use crate::response::{Response, build_response, envelope_spec};

verus! {

/// Handles one inbound failure signal: classifies it in fixed priority
/// order and renders the result. Never fails: every signal yields a
/// response. The returned line, if any, is owed to the process's error
/// sink; writing it is the caller's part and must not block the response.
pub fn handle_rejection(signal: &Signal) -> (r: (Response, Option<String>))
    ensures
        r.0.status == status_spec(*signal),
        r.0.body@ == envelope_spec(message_of_signal(*signal)),
        r.1 is Some <==> emits_diagnostic(*signal),
        r.1 is Some ==> r.1->0@ == diagnostic_spec(*signal),
{
    let outcome = classify(signal);
    let response = build_response(outcome.status, outcome.message.as_str());
    (response, outcome.diagnostic)
}

} // verus!
