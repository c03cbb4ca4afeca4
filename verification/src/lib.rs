//! Verified core of the Engula server pieces: the transactor's error model and its
//! gRPC status mapping, the journal's timestamp codec, and the replica bookkeeping
//! of a server node.
pub mod grpc;
pub mod transactor;
pub mod journal;
pub mod node;
