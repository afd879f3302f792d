//! The error taxonomy: a closed set of failure kinds, each carrying the
//! textual description of its underlying cause.

use vstd::prelude::*;

verus! {

/// The closed taxonomy of application failures. Exactly one branch is active
/// per value; each branch carries the description of the cause it wraps.
#[derive(Debug)]
pub enum Error {
    /// An opaque failure from the persistence layer.
    MongoError(String),
    /// A store failure arising during a query execution path.
    MongoQueryError(String),
    /// A failure extracting a typed field from a stored document.
    MongoDataError(String),
    /// A caller-supplied identifier failed validation; carries the text.
    InvalidIDError(String),
}

/// The description of the cause wrapped by a failure value.
pub open spec fn cause_of(e: Error) -> Seq<char> {
    match e {
        Error::MongoError(c) => c@,
        Error::MongoQueryError(c) => c@,
        Error::MongoDataError(c) => c@,
        Error::InvalidIDError(t) => t@,
    }
}

/// The branch-specific prefix of a failure's description.
pub open spec fn prefix_of(e: Error) -> Seq<char> {
    match e {
        Error::MongoError(_) => "mongodb error:"@,
        Error::MongoQueryError(_) => "error during mongodb query: "@,
        Error::MongoDataError(_) => "could not access field in document: "@,
        Error::InvalidIDError(_) => "Invalid id used:"@,
    }
}

/// The human-readable description of a failure: a branch-specific prefix
/// followed by the wrapped cause's own description.
pub open spec fn message_spec(e: Error) -> Seq<char> {
    prefix_of(e) + cause_of(e)
}

/// `needle` occurs contiguously somewhere inside `hay`.
pub open spec fn has_substring(hay: Seq<char>, needle: Seq<char>) -> bool {
    exists|i: int|
        0 <= i && i + needle.len() <= hay.len() && #[trigger] hay.subrange(i, i + needle.len())
            == needle
}

/// For every branch of the taxonomy, the rendered description contains the
/// wrapped cause's own description as a substring.
pub proof fn lemma_message_contains_cause(e: Error)
    ensures
        has_substring(message_spec(e), cause_of(e)),
{
    let p = prefix_of(e);
    let c = cause_of(e);
    let i = p.len() as int;
    assert(message_spec(e).subrange(i, i + c.len()) =~= c);
}

impl Error {
    /// Wraps the description of a store-layer failure, losslessly.
    pub fn from_store_failure(cause: String) -> (r: Error)
        ensures
            r == Error::MongoError(cause),
    {
        Error::MongoError(cause)
    }

    /// Wraps the description of a field-access failure, losslessly.
    pub fn from_field_access_failure(cause: String) -> (r: Error)
        ensures
            r == Error::MongoDataError(cause),
    {
        Error::MongoDataError(cause)
    }

    /// Renders the human-readable description of this failure.
    pub fn message(&self) -> (r: String)
        ensures
            r@ == message_spec(*self),
    {
        match self {
            Error::MongoError(c) => {
                let mut s = String::from_str("mongodb error:");
                s.append(c.as_str());
                s
            },
            Error::MongoQueryError(c) => {
                let mut s = String::from_str("error during mongodb query: ");
                s.append(c.as_str());
                s
            },
            Error::MongoDataError(c) => {
                let mut s = String::from_str("could not access field in document: ");
                s.append(c.as_str());
                s
            },
            Error::InvalidIDError(t) => {
                let mut s = String::from_str("Invalid id used:");
                s.append(t.as_str());
                s
            },
        }
    }
}

} // verus!
