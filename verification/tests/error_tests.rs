use rejection_handler::Error;

#[test]
fn store_error_message_wraps_cause() {
    let e = Error::MongoError(String::from("lost connection"));
    assert_eq!(e.message(), "mongodb error:lost connection");
}

#[test]
fn query_error_message_wraps_cause() {
    let e = Error::MongoQueryError(String::from("cursor timed out"));
    assert_eq!(e.message(), "error during mongodb query: cursor timed out");
}

#[test]
fn data_error_message_wraps_cause() {
    let e = Error::MongoDataError(String::from("missing field name"));
    assert_eq!(e.message(), "could not access field in document: missing field name");
}

#[test]
fn invalid_id_message_wraps_text() {
    let e = Error::InvalidIDError(String::from("abc123"));
    assert_eq!(e.message(), "Invalid id used:abc123");
}

#[test]
fn every_branch_message_contains_its_cause() {
    let cause = "the underlying cause";
    let branches = vec![
        Error::MongoError(String::from(cause)),
        Error::MongoQueryError(String::from(cause)),
        Error::MongoDataError(String::from(cause)),
        Error::InvalidIDError(String::from(cause)),
    ];
    for e in branches {
        assert!(e.message().contains(cause));
    }
}

#[test]
fn store_failure_wraps_into_store_branch() {
    let e = Error::from_store_failure(String::from("lost connection"));
    assert!(matches!(e, Error::MongoError(ref c) if c == "lost connection"));
}

#[test]
fn field_access_failure_wraps_into_data_branch() {
    let e = Error::from_field_access_failure(String::from("missing field name"));
    assert!(matches!(e, Error::MongoDataError(ref c) if c == "missing field name"));
}
