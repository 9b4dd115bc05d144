//! A caching DNS resolver abstraction for an HTTP client's
//! connection-establishment path.
//!
//! The core type is [`CachingResolver`]: it wraps an underlying
//! name-resolution backend with a bounded-capacity cache, a bounded
//! per-lookup timeout and a bounded retry budget. The resolver is modelled
//! as a state machine: the caller (the HTTP client's connector loop, which
//! performs the actual network lookups) asks where to go next and reports
//! each lookup outcome back, so every decision the resolver makes is
//! verified here while the I/O stays outside.
//!
//! [`RequestRunner`] drives a fixed number of sequential requests
//! through such a client and aborts on the first failure.

pub mod hostname;
pub mod addr;
pub mod config;
pub mod errors;
pub mod cache;
pub mod resolver;
pub mod runner;

pub use hostname::Hostname;
pub use addr::{IpAddress, SocketAddress};
pub use config::ResolverConfig;
pub use errors::{ResolutionError, ResolutionErrorKind, RunError};
pub use cache::{CacheEntry, DnsCache};
pub use resolver::{
    AttemptOutcome, CachingResolver, ResolveSession, ResolveStart, SessionStep,
};
pub use runner::{RequestOutcome, RequestRunner, RunState, RunnerConfig};
