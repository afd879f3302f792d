use rejection_handler::classify;
use rejection_handler::Error;
use rejection_handler::Signal;

fn unrecognized() -> Signal {
    Signal { not_found: false, invalid_body: false, app_error: None, method_not_allowed: false }
}

#[test]
fn not_found_yields_404() {
    let signal = Signal { not_found: true, ..unrecognized() };
    let outcome = classify(&signal);
    assert_eq!(outcome.status, 404);
    assert_eq!(outcome.message, "Not Found");
    assert!(outcome.diagnostic.is_none());
}

#[test]
fn not_found_wins_over_every_other_shape() {
    let signal = Signal {
        not_found: true,
        invalid_body: true,
        app_error: Some(Error::InvalidIDError(String::from("abc123"))),
        method_not_allowed: true,
    };
    let outcome = classify(&signal);
    assert_eq!(outcome.status, 404);
    assert_eq!(outcome.message, "Not Found");
    assert!(outcome.diagnostic.is_none());
}

#[test]
fn invalid_body_yields_400() {
    let signal = Signal { invalid_body: true, ..unrecognized() };
    let outcome = classify(&signal);
    assert_eq!(outcome.status, 400);
    assert_eq!(outcome.message, "Invalid Body");
    assert!(outcome.diagnostic.is_none());
}

#[test]
fn invalid_body_wins_over_app_error() {
    let signal = Signal {
        invalid_body: true,
        app_error: Some(Error::MongoError(String::from("lost connection"))),
        ..unrecognized()
    };
    let outcome = classify(&signal);
    assert_eq!(outcome.status, 400);
    assert_eq!(outcome.message, "Invalid Body");
    assert!(outcome.diagnostic.is_none());
}

#[test]
fn store_error_yields_500_and_one_diagnostic() {
    let signal = Signal {
        app_error: Some(Error::MongoError(String::from("lost connection"))),
        ..unrecognized()
    };
    let outcome = classify(&signal);
    assert_eq!(outcome.status, 500);
    assert_eq!(outcome.message, "Internal Server Error");
    let line = outcome.diagnostic.expect("an app error must be logged");
    assert!(line.starts_with("unhandled application error: "));
    assert!(line.contains("mongodb error:lost connection"));
}

#[test]
fn query_error_yields_500() {
    let signal = Signal {
        app_error: Some(Error::MongoQueryError(String::from("cursor timed out"))),
        ..unrecognized()
    };
    let outcome = classify(&signal);
    assert_eq!(outcome.status, 500);
    assert_eq!(outcome.message, "Internal Server Error");
    assert!(outcome.diagnostic.is_some());
}

#[test]
fn data_error_yields_500() {
    let signal = Signal {
        app_error: Some(Error::MongoDataError(String::from("missing field name"))),
        ..unrecognized()
    };
    let outcome = classify(&signal);
    assert_eq!(outcome.status, 500);
    assert_eq!(outcome.message, "Internal Server Error");
    assert!(outcome.diagnostic.is_some());
}

#[test]
fn invalid_id_yields_500() {
    let signal = Signal {
        app_error: Some(Error::InvalidIDError(String::from("abc123"))),
        ..unrecognized()
    };
    let outcome = classify(&signal);
    assert_eq!(outcome.status, 500);
    assert_eq!(outcome.message, "Internal Server Error");
    assert!(outcome.diagnostic.is_some());
}

#[test]
fn app_error_wins_over_method_not_allowed() {
    let signal = Signal {
        app_error: Some(Error::MongoError(String::from("lost connection"))),
        method_not_allowed: true,
        ..unrecognized()
    };
    let outcome = classify(&signal);
    assert_eq!(outcome.status, 500);
    assert_eq!(outcome.message, "Internal Server Error");
    assert!(outcome.diagnostic.is_some());
}

#[test]
fn method_not_allowed_yields_405() {
    let signal = Signal { method_not_allowed: true, ..unrecognized() };
    let outcome = classify(&signal);
    assert_eq!(outcome.status, 405);
    assert_eq!(outcome.message, "Method Not Allowed");
    assert!(outcome.diagnostic.is_none());
}

#[test]
fn unrecognized_yields_500_and_one_diagnostic() {
    let outcome = classify(&unrecognized());
    assert_eq!(outcome.status, 500);
    assert_eq!(outcome.message, "Internal Server Error");
    let line = outcome.diagnostic.expect("an unrecognized signal must be logged");
    assert!(line.starts_with("unhandled error: "));
}

#[test]
fn classification_is_idempotent() {
    let signal = Signal {
        app_error: Some(Error::InvalidIDError(String::from("abc123"))),
        ..unrecognized()
    };
    let first = classify(&signal);
    let second = classify(&signal);
    assert_eq!(first.status, second.status);
    assert_eq!(first.message, second.message);
    assert_eq!(first.diagnostic, second.diagnostic);
}
