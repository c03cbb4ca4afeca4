//! The gRPC status types of `tonic` as seen from verified code.
use vstd::prelude::*;

verus! {

/// `tonic::Code`: a field-less public enum whose variants verified code names directly.
#[verifier::external_type_specification]
pub struct ExCode(tonic::Code);

/// `tonic::Status`: opaque to verified code.
#[verifier::external_type_specification]
#[verifier::external_body]
pub struct ExStatus(tonic::Status);

/// The status that `tonic::Status::new` builds from a code and a message.
pub uninterp spec fn grpc_status(code: tonic::Code, message: Seq<char>) -> tonic::Status;

/// Calls `tonic::Status::new`, which stores the code and the message (with empty
/// details and metadata and no source) and depends on nothing else.
#[verifier::external_body]
pub(crate) fn status_new(code: tonic::Code, message: String) -> (status: tonic::Status)
    ensures
        status == grpc_status(code, message@),
{
    tonic::Status::new(code, message)
}


} // verus!
