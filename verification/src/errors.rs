use vstd::prelude::*;
use crate::hostname::Hostname;

verus! {

/// Why a single lookup attempt, or the resolution as a whole, failed.
#[derive(Clone, Copy, PartialEq, Eq, Structural, Debug)]
pub enum ResolutionErrorKind {
    /// The attempt exceeded the per-lookup timeout.
    Timeout,
    /// The name does not exist (NXDOMAIN).
    NameNotFound,
    /// A network error reaching the name server.
    Network,
}

/// A failed resolution, surfaced after the retry budget is spent: the
/// hostname, the cause of the last attempt, and how many attempts were made.
#[derive(Debug)]
pub struct ResolutionError {
    pub host: Hostname,
    pub cause: ResolutionErrorKind,
    pub attempts: u32,
}

/// The first error that aborts a request run.
#[derive(Debug)]
pub enum RunError {
    /// Name resolution failed after its internal retry budget.
    Resolution(ResolutionError),
    /// A resolved address was unreachable or the TLS handshake failed.
    Connection,
    /// The overall per-request budget was exceeded.
    RequestTimeout,
    /// Any other I/O failure while sending or receiving.
    Transport,
}

} // verus!
