use engula::transactor::{CooperatorError, Error};
use tonic::Code;

#[test]
fn status_of_not_found() {
    let status = Error::NotFound("txn".to_owned()).into_status();
    assert_eq!(status.code(), Code::NotFound);
    assert_eq!(status.message(), "txn");
}

#[test]
fn status_of_already_exists() {
    let status = Error::AlreadyExists("db".to_owned()).into_status();
    assert_eq!(status.code(), Code::AlreadyExists);
    assert_eq!(status.message(), "db");
}

#[test]
fn status_of_invalid_argument() {
    let status = Error::InvalidArgument.into_status();
    assert_eq!(status.code(), Code::InvalidArgument);
    assert_eq!(status.message(), "");
}

#[test]
fn status_parts_of_each_error() {
    let (code, message) = Error::NotFound("a".to_owned()).status_parts();
    assert_eq!(code, Code::NotFound);
    assert_eq!(message, "a");
    let (code, message) = Error::AlreadyExists("b".to_owned()).status_parts();
    assert_eq!(code, Code::AlreadyExists);
    assert_eq!(message, "b");
    let (code, message) = Error::InvalidArgument.status_parts();
    assert_eq!(code, Code::InvalidArgument);
    assert_eq!(message, "");
}

#[test]
fn descriptions() {
    assert_eq!(Error::NotFound("bucket".to_owned()).to_string(), "bucket is not found");
    assert_eq!(Error::AlreadyExists("bucket".to_owned()).to_string(), "bucket already exists");
    assert_eq!(Error::InvalidArgument.to_string(), "invalid argument");
    assert_eq!(Error::NotFound(String::new()).to_string(), " is not found");
}

#[test]
fn from_cooperator_keeps_kind_and_name() {
    match Error::from(CooperatorError::NotFound("x".to_owned())) {
        Error::NotFound(m) => assert_eq!(m, "x"),
        other => panic!("unexpected {:?}", other),
    }
    match Error::from(CooperatorError::AlreadyExists("y".to_owned())) {
        Error::AlreadyExists(m) => assert_eq!(m, "y"),
        other => panic!("unexpected {:?}", other),
    }
    assert!(matches!(Error::from(CooperatorError::InvalidArgument), Error::InvalidArgument));
}

#[test]
fn cooperator_error_reported_as_status() {
    let status = Error::from(CooperatorError::AlreadyExists("k".to_owned())).into_status();
    assert_eq!(status.code(), Code::AlreadyExists);
    assert_eq!(status.message(), "k");
}
