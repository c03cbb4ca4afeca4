//! Errors of the transactor service and how they are reported over gRPC.
use vstd::prelude::*;
use vstd::std_specs::convert::FromSpecImpl;
use tonic::{Code, Status};
use crate::grpc::{grpc_status, status_new};

verus! {

/// Errors that the transactor reports to its clients.
#[derive(Debug)]
pub enum Error {
    /// The named entity does not exist.
    NotFound(String),
    /// The named entity exists already.
    AlreadyExists(String),
    /// A request carried an argument that is not acceptable.
    InvalidArgument,
}

/// The result of a transactor operation.
pub type Result<T> = std::result::Result<T, Error>;

/// Errors that the cooperator, the transactor's backend, hands back.
#[derive(Debug)]
pub enum CooperatorError {
    /// The named entity does not exist.
    NotFound(String),
    /// The named entity exists already.
    AlreadyExists(String),
    /// A request carried an argument that is not acceptable.
    InvalidArgument,
}

/// The gRPC code that reports `err`.
pub open spec fn status_code_of(err: &Error) -> Code {
    match err {
        Error::NotFound(_) => Code::NotFound,
        Error::AlreadyExists(_) => Code::AlreadyExists,
        Error::InvalidArgument => Code::InvalidArgument,
    }
}

/// The gRPC message that reports `err`: the entity's name, or nothing.
pub open spec fn status_message_of(err: &Error) -> Seq<char> {
    match err {
        Error::NotFound(m) => m@,
        Error::AlreadyExists(m) => m@,
        Error::InvalidArgument => Seq::empty(),
    }
}

/// The human-readable description of `err`.
pub open spec fn description_of(err: &Error) -> Seq<char> {
    match err {
        Error::NotFound(m) => m@ + " is not found"@,
        Error::AlreadyExists(m) => m@ + " already exists"@,
        Error::InvalidArgument => "invalid argument"@,
    }
}

/// The transactor error that a cooperator error becomes: same kind, same name.
pub open spec fn from_cooperator(err: CooperatorError) -> Error {
    match err {
        CooperatorError::NotFound(m) => Error::NotFound(m),
        CooperatorError::AlreadyExists(m) => Error::AlreadyExists(m),
        CooperatorError::InvalidArgument => Error::InvalidArgument,
    }
}

impl Error {
    /// The gRPC code and message that report this error.
    pub fn status_parts(self) -> (parts: (Code, String))
        ensures
            parts.0 == status_code_of(&self),
            parts.1@ == status_message_of(&self),
    {
        match self {
            Error::NotFound(m) => (Code::NotFound, m),
            Error::AlreadyExists(m) => (Code::AlreadyExists, m),
            Error::InvalidArgument => (Code::InvalidArgument, String::new()),
        }
    }

    /// The gRPC status that reports this error to a client.
    pub fn into_status(self) -> (status: Status)
        ensures
            status == grpc_status(status_code_of(&self), status_message_of(&self)),
    {
        let (code, message) = self.status_parts();
        status_new(code, message)
    }

    /// The description of this error, as its display text reads.
    pub fn to_string(&self) -> (text: String)
        ensures
            text@ == description_of(self),
    {
        match self {
            Error::NotFound(m) => m.clone().concat(" is not found"),
            Error::AlreadyExists(m) => m.clone().concat(" already exists"),
            Error::InvalidArgument => "invalid argument".to_owned(),
        }
    }
}

impl From<CooperatorError> for Error {
    fn from(err: CooperatorError) -> (res: Self)
        ensures
            res == from_cooperator(err),
    {
        match err {
            CooperatorError::NotFound(m) => Error::NotFound(m),
            CooperatorError::AlreadyExists(m) => Error::AlreadyExists(m),
            CooperatorError::InvalidArgument => Error::InvalidArgument,
        }
    }
}

impl FromSpecImpl<CooperatorError> for Error {
    open spec fn obeys_from_spec() -> bool {
        true
    }

    open spec fn from_spec(v: CooperatorError) -> Error {
        from_cooperator(v)
    }
}

/// A missing entity is reported with code `NotFound` and its name as the message,
/// whatever the name.
pub proof fn not_found_is_reported_as_not_found(m: String)
    ensures
        status_code_of(&Error::NotFound(m)) == Code::NotFound,
        status_message_of(&Error::NotFound(m)) == m@,
{
}

/// An existing entity is reported with code `AlreadyExists` and its name as the
/// message, whatever the name.
pub proof fn already_exists_is_reported_as_already_exists(m: String)
    ensures
        status_code_of(&Error::AlreadyExists(m)) == Code::AlreadyExists,
        status_message_of(&Error::AlreadyExists(m)) == m@,
{
}

/// An invalid argument is reported with code `InvalidArgument` and an empty message.
pub proof fn invalid_argument_is_reported_as_invalid_argument()
    ensures
        status_code_of(&Error::InvalidArgument) == Code::InvalidArgument,
        status_message_of(&Error::InvalidArgument) == Seq::<char>::empty(),
{
}

/// Errors of the same kind are reported with the same code, whatever their names;
/// errors of different kinds with different codes.
pub proof fn status_code_follows_kind_only(m1: String, m2: String)
    ensures
        status_code_of(&Error::NotFound(m1)) == status_code_of(&Error::NotFound(m2)),
        status_code_of(&Error::AlreadyExists(m1)) == status_code_of(&Error::AlreadyExists(m2)),
        status_code_of(&Error::NotFound(m1)) != status_code_of(&Error::AlreadyExists(m2)),
        status_code_of(&Error::NotFound(m1)) != status_code_of(&Error::InvalidArgument),
        status_code_of(&Error::AlreadyExists(m1)) != status_code_of(&Error::InvalidArgument),
{
}

/// The description of a missing entity is its name followed by " is not found"; of an
/// existing one, its name followed by " already exists"; of an invalid argument,
/// "invalid argument". The name stands unchanged at the front, whatever its length.
pub proof fn descriptions_name_the_entity(m: String)
    ensures
        description_of(&Error::NotFound(m)) == m@ + " is not found"@,
        description_of(&Error::AlreadyExists(m)) == m@ + " already exists"@,
        description_of(&Error::InvalidArgument) == "invalid argument"@,
        description_of(&Error::NotFound(m)).subrange(0, m@.len() as int) == m@,
        description_of(&Error::AlreadyExists(m)).subrange(0, m@.len() as int) == m@,
{
    assert((m@ + " is not found"@).subrange(0, m@.len() as int) =~= m@);
    assert((m@ + " already exists"@).subrange(0, m@.len() as int) =~= m@);
}

/// Converting a cooperator error keeps its kind and its name.
pub proof fn conversion_keeps_kind_and_name(m: String)
    ensures
        from_cooperator(CooperatorError::NotFound(m)) == Error::NotFound(m),
        from_cooperator(CooperatorError::AlreadyExists(m)) == Error::AlreadyExists(m),
        from_cooperator(CooperatorError::InvalidArgument) == Error::InvalidArgument,
{
}

/// A converted cooperator error is reported with the code of its kind and its name.
pub proof fn converted_error_is_reported_by_kind(m: String)
    ensures
        status_code_of(&from_cooperator(CooperatorError::NotFound(m))) == Code::NotFound,
        status_message_of(&from_cooperator(CooperatorError::NotFound(m))) == m@,
        status_code_of(&from_cooperator(CooperatorError::AlreadyExists(m))) == Code::AlreadyExists,
        status_message_of(&from_cooperator(CooperatorError::AlreadyExists(m))) == m@,
        status_code_of(&from_cooperator(CooperatorError::InvalidArgument)) == Code::InvalidArgument,
{
}

} // verus!
