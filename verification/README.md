# engula (verified core)

- `src/transactor.rs`: the transactor's `Error`, its gRPC code and message, its
  description, and the conversion from the cooperator's errors.
- `src/grpc.rs`: the `tonic` types that the library reads (`Code`) and builds (`Status`).
- `src/journal.rs`: the timestamp codec (JSON text through `serde_json`), the exact set of
  texts it reads, and its laws.
- `src/node.rs`: a server node's replica table and the decisions of creating,
  starting and recovering replicas (recovery included: a persisted replica whose
  group does not open is reported as inconsistent), with their laws.
- `app/`: `thiserror` copies of the error types, their `tonic::Status` conversion, and
  the driver that runs the node's decisions around its storage.
