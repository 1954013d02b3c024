//! Balance resolution for a JSON-RPC blockchain node, behind a
//! time-bounded cache and a bounded exponential-backoff retry policy.
//!
//! The crate holds the logic of the pipeline: building the upstream
//! request payload, decoding the hex-encoded balance from the response,
//! the cache-aside read/write policy with a fixed time-to-live, and the
//! retry schedule. The network itself (the cache service and the HTTP
//! transport) is driven by the embedding program, which feeds outcomes
//! into the resolver's state machine.

pub mod codec;
pub mod errors;
pub mod resolver;
pub mod retry;
pub mod store;
