//! The rejection classifier: a priority-ordered matcher that inspects an
//! inbound failure signal and decides a status code, a client-facing message,
//! and, for internal or unrecognized failures, a diagnostic line for the
//! process's error sink.

use vstd::prelude::*;

use crate::error::{Error, message_spec};

verus! {

/// The shapes an inbound failure signal can carry, as capability flags.
/// A signal may satisfy several flags at once; classification resolves the
/// ambiguity in a fixed priority order.
pub struct Signal {
    /// The signal denotes "route not found".
    pub not_found: bool,
    /// The signal denotes "request body failed structural deserialization".
    pub invalid_body: bool,
    /// The signal carries an embedded taxonomy failure.
    pub app_error: Option<Error>,
    /// The signal denotes "method not allowed for this route".
    pub method_not_allowed: bool,
}

/// The outcome of classifying one signal.
pub struct Classification {
    /// The HTTP status code to answer with.
    pub status: u16,
    /// The client-facing message.
    pub message: String,
    /// A line for the process's error sink, present exactly when the signal
    /// is an internal or unrecognized failure.
    pub diagnostic: Option<String>,
}

/// The status code a signal classifies to, first match wins.
pub open spec fn status_spec(s: Signal) -> u16 {
    if s.not_found {
        404
    } else if s.invalid_body {
        400
    } else if s.app_error is Some {
        500
    } else if s.method_not_allowed {
        405
    } else {
        500
    }
}

/// The client-facing message a signal classifies to, first match wins.
pub open spec fn message_of_signal(s: Signal) -> Seq<char> {
    if s.not_found {
        "Not Found"@
    } else if s.invalid_body {
        "Invalid Body"@
    } else if s.app_error is Some {
        "Internal Server Error"@
    } else if s.method_not_allowed {
        "Method Not Allowed"@
    } else {
        "Internal Server Error"@
    }
}

/// Whether classifying a signal writes one line to the error sink: it does
/// exactly for an embedded taxonomy failure and for an unrecognized shape.
pub open spec fn emits_diagnostic(s: Signal) -> bool {
    !s.not_found && !s.invalid_body && (s.app_error is Some || !s.method_not_allowed)
}

/// The rendering of a signal's embedded failure, if any.
pub open spec fn app_error_text(s: Signal) -> Seq<char> {
    match s.app_error {
        Some(e) => "Some("@ + message_spec(e) + ")"@,
        None => "None"@,
    }
}

/// The rendering of a boolean flag.
pub open spec fn bool_text(b: bool) -> Seq<char> {
    if b {
        "true"@
    } else {
        "false"@
    }
}

/// The full rendering of a signal, as written to the error sink.
pub open spec fn describe_spec(s: Signal) -> Seq<char> {
    "Signal { not_found: "@ + bool_text(s.not_found) + ", invalid_body: "@ + bool_text(
        s.invalid_body,
    ) + ", app_error: "@ + app_error_text(s) + ", method_not_allowed: "@ + bool_text(
        s.method_not_allowed,
    ) + " }"@
}

/// The diagnostic line a signal classifies to, when one is emitted.
pub open spec fn diagnostic_spec(s: Signal) -> Seq<char> {
    if s.app_error is Some {
        "unhandled application error: "@ + describe_spec(s)
    } else {
        "unhandled error: "@ + describe_spec(s)
    }
}

impl Signal {
    /// Renders this signal for the error sink.
    pub fn describe(&self) -> (r: String)
        ensures
            r@ == describe_spec(*self),
    {
        let mut s = String::from_str("Signal { not_found: ");
        s.append(if self.not_found {
            "true"
        } else {
            "false"
        });
        s.append(", invalid_body: ");
        s.append(if self.invalid_body {
            "true"
        } else {
            "false"
        });
        s.append(", app_error: ");
        match &self.app_error {
            Some(e) => {
                s.append("Some(");
                let m = e.message();
                s.append(m.as_str());
                s.append(")");
            },
            None => {
                s.append("None");
            },
        }
        s.append(", method_not_allowed: ");
        s.append(if self.method_not_allowed {
            "true"
        } else {
            "false"
        });
        s.append(" }");
        s
    }
}

/// Classifies an inbound failure signal against the recognized shapes in
/// fixed priority order, first match wins. Never fails: every signal, the
/// unrecognized ones included, yields a defined status and message.
pub fn classify(signal: &Signal) -> (r: Classification)
    ensures
        r.status == status_spec(*signal),
        r.message@ == message_of_signal(*signal),
        r.diagnostic is Some <==> emits_diagnostic(*signal),
        r.diagnostic is Some ==> r.diagnostic->0@ == diagnostic_spec(*signal),
{
    if signal.not_found {
        Classification {
            status: 404,
            message: String::from_str("Not Found"),
            diagnostic: None,
        }
    } else if signal.invalid_body {
        Classification {
            status: 400,
            message: String::from_str("Invalid Body"),
            diagnostic: None,
        }
    } else if signal.app_error.is_some() {
        let mut d = String::from_str("unhandled application error: ");
        let text = signal.describe();
        d.append(text.as_str());
        Classification {
            status: 500,
            message: String::from_str("Internal Server Error"),
            diagnostic: Some(d),
        }
    } else if signal.method_not_allowed {
        Classification {
            status: 405,
            message: String::from_str("Method Not Allowed"),
            diagnostic: None,
        }
    } else {
        let mut d = String::from_str("unhandled error: ");
        let text = signal.describe();
        d.append(text.as_str());
        Classification {
            status: 500,
            message: String::from_str("Internal Server Error"),
            diagnostic: Some(d),
        }
    }
}

/// A not-found signal always classifies to 404 / "Not Found", whatever other
/// shapes it carries.
pub proof fn lemma_not_found_wins(s: Signal)
    requires
        s.not_found,
    ensures
        status_spec(s) == 404,
        message_of_signal(s) == "Not Found"@,
        !emits_diagnostic(s),
{
}

/// A malformed-body signal classifies to 400 / "Invalid Body" unless it also
/// denotes not-found, the only shape of higher priority.
pub proof fn lemma_invalid_body(s: Signal)
    requires
        s.invalid_body,
        !s.not_found,
    ensures
        status_spec(s) == 400,
        message_of_signal(s) == "Invalid Body"@,
        !emits_diagnostic(s),
{
}

/// A signal carrying any embedded taxonomy failure classifies to 500 /
/// "Internal Server Error" and emits one diagnostic line, unless a
/// higher-priority transport shape is present.
pub proof fn lemma_app_error_collapses(s: Signal)
    requires
        s.app_error is Some,
        !s.not_found,
        !s.invalid_body,
    ensures
        status_spec(s) == 500,
        message_of_signal(s) == "Internal Server Error"@,
        emits_diagnostic(s),
{
}

/// A method-not-allowed signal carrying no higher-priority shape classifies
/// to 405 / "Method Not Allowed".
pub proof fn lemma_method_not_allowed(s: Signal)
    requires
        s.method_not_allowed,
        !s.not_found,
        !s.invalid_body,
        s.app_error is None,
    ensures
        status_spec(s) == 405,
        message_of_signal(s) == "Method Not Allowed"@,
        !emits_diagnostic(s),
{
}

/// A signal matching none of the recognized shapes classifies to 500 /
/// "Internal Server Error" and emits one diagnostic line.
pub proof fn lemma_unrecognized(s: Signal)
    requires
        !s.not_found,
        !s.invalid_body,
        s.app_error is None,
        !s.method_not_allowed,
    ensures
        status_spec(s) == 500,
        message_of_signal(s) == "Internal Server Error"@,
        emits_diagnostic(s),
{
}

/// Classification keeps no hidden state: two outcomes of classifying the
/// same signal agree in status, message and diagnostic.
pub proof fn lemma_classify_idempotent(s: Signal, r1: Classification, r2: Classification)
    requires
        r1.status == status_spec(s),
        r1.message@ == message_of_signal(s),
        r1.diagnostic is Some <==> emits_diagnostic(s),
        r1.diagnostic is Some ==> r1.diagnostic->0@ == diagnostic_spec(s),
        r2.status == status_spec(s),
        r2.message@ == message_of_signal(s),
        r2.diagnostic is Some <==> emits_diagnostic(s),
        r2.diagnostic is Some ==> r2.diagnostic->0@ == diagnostic_spec(s),
    ensures
        r1.status == r2.status,
        r1.message@ == r2.message@,
        r1.diagnostic is Some <==> r2.diagnostic is Some,
        r1.diagnostic is Some ==> r1.diagnostic->0@ == r2.diagnostic->0@,
{
}

} // verus!
