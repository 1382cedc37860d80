//! Network echo probes with a verified core.
//!
//! The library models the heart of an asynchronous ICMP echo issuer: the
//! per-probe completion state machine that is shared between a polling
//! caller and a worker thread, the request/reply buffer, the bounded
//! submission queue, and the mapping from raw status codes to probe
//! outcomes.  The operating-system probe primitive itself is a collaborator
//! that lives outside this crate; it hands results back as plain values.

pub mod addr;
pub mod buffer;
pub mod error;
pub mod future;
pub mod options;
pub mod protocol;
pub mod queue;
pub mod state;

pub use addr::{Ip4Addr, Ip6Addr, IpAddress, IpPair};
pub use buffer::Buffer;
pub use error::Error;
pub use future::{finish_v4, finish_v6, AsyncResult, IpKind, PingFuture, PollOutcome};
pub use options::PingOptions;
pub use queue::BoundedQueue;
pub use state::{CompletionState, SendDisposition};
