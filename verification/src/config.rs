use vstd::prelude::*;

verus! {

/// Immutable resolver configuration: cache capacity, per-lookup-attempt
/// timeout, retry budget, and whether static host overrides are consulted
/// before a network query. All bounds are positive.
#[derive(Clone, Copy, PartialEq, Eq, Structural, Debug)]
pub struct ResolverConfig {
    pub cache_capacity: usize,
    pub lookup_timeout_ms: u64,
    pub max_attempts: u32,
    pub use_hosts_file: bool,
}

impl ResolverConfig {
    pub open spec fn wf(&self) -> bool {
        &&& self.cache_capacity >= 1
        &&& self.lookup_timeout_ms >= 1
        &&& self.max_attempts >= 1
    }

    /// Build a configuration; rejects a zero capacity, timeout or attempt
    /// budget, since each bound must actually bound something.
    pub fn new(
        cache_capacity: usize,
        lookup_timeout_ms: u64,
        max_attempts: u32,
        use_hosts_file: bool,
    ) -> (r: Option<ResolverConfig>)
        ensures
            r is Some <==> cache_capacity >= 1 && lookup_timeout_ms >= 1 && max_attempts >= 1,
            r matches Some(c) ==> c == (ResolverConfig {
                cache_capacity,
                lookup_timeout_ms,
                max_attempts,
                use_hosts_file,
            }) && c.wf(),
    {
        if cache_capacity >= 1 && lookup_timeout_ms >= 1 && max_attempts >= 1 {
            Some(ResolverConfig { cache_capacity, lookup_timeout_ms, max_attempts, use_hosts_file })
        } else {
            None
        }
    }

    /// The longest a single resolution can wait before it must have failed:
    /// every attempt is cut off at `lookup_timeout_ms`, and at most
    /// `max_attempts` attempts are made.
    pub open spec fn worst_case_wait_ms(&self) -> int {
        (self.max_attempts as int) * (self.lookup_timeout_ms as int)
    }
}

} // verus!
