use vstd::prelude::*;
use crate::addr::{IpAddress, SocketAddress};
use crate::cache::{copy_addrs, CacheEntry, DnsCache};
use crate::config::ResolverConfig;
use crate::errors::{ResolutionError, ResolutionErrorKind};
use crate::hostname::Hostname;

verus! {

/// The connectable form of a backend answer: each resolved IP address paired
/// with port 0, in the order the backend returned them.
pub open spec fn addrs_of(ips: Seq<IpAddress>) -> Seq<SocketAddress> {
    ips.map_values(|ip: IpAddress| SocketAddress { ip, port: 0u16 })
}

/// When a record stored at `now` with validity `ttl_ms` expires, saturating
/// at the largest representable time.
pub open spec fn expiry_spec(now: u64, ttl_ms: u64) -> u64 {
    if now + ttl_ms > u64::MAX {
        u64::MAX
    } else {
        (now + ttl_ms) as u64
    }
}

/// How many further lookup attempts a session with `attempts_done` attempts
/// behind it may still make before it must surface failure.
pub open spec fn remaining_attempts(c: ResolverConfig, attempts_done: u32) -> int {
    c.max_attempts - attempts_done
}

/// An in-flight resolution that missed the cache: which hostname is being
/// resolved and how many lookup attempts have already failed.
pub struct ResolveSession {
    host: Hostname,
    attempts_done: u32,
}

impl ResolveSession {
    pub closed spec fn spec_host(&self) -> Seq<u8> {
        self.host@
    }

    pub closed spec fn spec_attempts(&self) -> u32 {
        self.attempts_done
    }

    /// A live session always has retry budget left.
    pub open spec fn wf(&self, c: ResolverConfig) -> bool {
        self.spec_attempts() < c.max_attempts
    }

    /// The hostname this session is resolving.
    pub fn host(&self) -> (r: &Hostname)
        ensures
            r@ == self.spec_host(),
    {
        &self.host
    }

    /// How many attempts have failed so far.
    pub fn attempts_done(&self) -> (r: u32)
        ensures
            r == self.spec_attempts(),
    {
        self.attempts_done
    }
}

/// The resolver's answer to "where do I go for this hostname?": either the
/// addresses, served from the cache with no backend attempt, or a session
/// that directs the caller to perform a backend lookup.
pub enum ResolveStart {
    Hit(Vec<SocketAddress>),
    Miss(ResolveSession),
}

/// What one backend lookup attempt came back with. An answer may carry zero
/// addresses: a name that exists but has no records resolves to an empty
/// list, which is an answer, not a failure.
pub enum AttemptOutcome {
    Answer { ips: Vec<IpAddress>, ttl_ms: u64 },
    Failed(ResolutionErrorKind),
}

/// The resolver's decision after a lookup attempt: the resolution is done
/// (with addresses or a surfaced error), or one more attempt is directed.
pub enum SessionStep {
    Done(Result<Vec<SocketAddress>, ResolutionError>),
    Retry(ResolveSession),
}

/// A caching resolver: translates hostnames into connectable addresses,
/// serving repeated lookups from a bounded cache and bounding each miss by
/// a per-attempt timeout and a retry budget.
///
/// The resolver makes every decision but performs no I/O itself: the caller
/// performs each directed lookup attempt (cut off at
/// `config.lookup_timeout_ms`) and reports its outcome back.
pub struct CachingResolver {
    config: ResolverConfig,
    cache: DnsCache,
}

impl CachingResolver {
    pub closed spec fn spec_config(&self) -> ResolverConfig {
        self.config
    }

    pub closed spec fn spec_cache(&self) -> DnsCache {
        self.cache
    }

    pub open spec fn wf(&self) -> bool {
        &&& self.spec_config().wf()
        &&& self.spec_cache().wf()
        &&& self.spec_cache().spec_capacity() == self.spec_config().cache_capacity
    }

    /// What a resolve begun at `now` is served from the cache: the recorded
    /// addresses while a valid record exists, nothing otherwise.
    pub open spec fn begin_decision(&self, key: Seq<u8>, now: u64) -> Option<Seq<SocketAddress>> {
        if self.spec_cache().valid_at(key, now) {
            Some(self.spec_cache().record(key)->Some_0.0)
        } else {
            None
        }
    }

    /// A resolver with an empty cache.
    pub fn new(config: ResolverConfig) -> (r: CachingResolver)
        requires
            config.wf(),
        ensures
            r.wf(),
            r.spec_config() == config,
            forall|k: Seq<u8>| !r.spec_cache().has_key(k),
    {
        CachingResolver { config, cache: DnsCache::new(config.cache_capacity) }
    }

    /// The configuration this resolver was built with.
    pub fn config(&self) -> (r: ResolverConfig)
        ensures
            r == self.spec_config(),
    {
        self.config
    }

    /// Begin resolving `host` at time `now`: a valid cached record is served
    /// directly (no backend attempt); otherwise a fresh session directs the
    /// caller to perform the first lookup attempt.
    pub fn begin(&self, host: &Hostname, now: u64) -> (r: ResolveStart)
        requires
            self.wf(),
        ensures
            r is Hit <==> self.begin_decision(host@, now) is Some,
            r matches ResolveStart::Hit(v) ==> self.begin_decision(host@, now) == Some(v@),
            r matches ResolveStart::Miss(s) ==> s.spec_host() == host@ && s.spec_attempts() == 0
                && s.wf(self.spec_config()),
    {
        match self.cache.lookup(host, now) {
            Some(addrs) => ResolveStart::Hit(addrs),
            None => ResolveStart::Miss(
                ResolveSession { host: host.duplicate(), attempts_done: 0 },
            ),
        }
    }

    /// Take the outcome of the lookup attempt the session directed, at time
    /// `now`. An answer — even an empty one — completes the resolution and
    /// is recorded in the cache until `now + ttl_ms`; a failure either
    /// directs one more attempt or, once the retry budget is spent,
    /// surfaces a `ResolutionError` carrying the hostname, the cause of the
    /// last attempt, and the number of attempts made.
    pub fn on_attempt(&mut self, session: ResolveSession, outcome: AttemptOutcome, now: u64) -> (r:
        SessionStep)
        requires
            old(self).wf(),
            session.wf(old(self).spec_config()),
        ensures
            final(self).wf(),
            final(self).spec_config() == old(self).spec_config(),
            outcome matches AttemptOutcome::Answer { ips, ttl_ms } ==> {
                &&& (r matches SessionStep::Done(res) && res matches Ok(v) && v@ == addrs_of(
                    ips@,
                ))
                &&& final(self).spec_cache().record(session.spec_host()) == Some::<
                    (Seq<SocketAddress>, u64),
                >((addrs_of(ips@), expiry_spec(now, ttl_ms)))
                &&& forall|k: Seq<u8>|
                    k != session.spec_host() && k != old(self).spec_cache().oldest_key()
                        ==> final(self).spec_cache().record(k) == old(self).spec_cache().record(k)
                &&& (old(self).spec_cache().has_key(session.spec_host()) || old(
                    self,
                ).spec_cache().spec_len() < old(self).spec_cache().spec_capacity())
                    ==> forall|k: Seq<u8>|
                    k != session.spec_host() ==> final(self).spec_cache().record(k) == old(
                        self,
                    ).spec_cache().record(k)
            },
            outcome matches AttemptOutcome::Failed(kind) ==> *final(self) == *old(self) && (
            if session.spec_attempts() + 1 < old(self).spec_config().max_attempts {
                r matches SessionStep::Retry(s2) && s2.spec_host() == session.spec_host()
                    && s2.spec_attempts() == session.spec_attempts() + 1 && s2.wf(
                    old(self).spec_config(),
                ) && remaining_attempts(old(self).spec_config(), s2.spec_attempts())
                    == remaining_attempts(old(self).spec_config(), session.spec_attempts()) - 1
            } else {
                r matches SessionStep::Done(res) && res matches Err(e) && e.host@
                    == session.spec_host() && e.cause == kind && e.attempts == old(
                    self,
                ).spec_config().max_attempts
            }),
    {
        match outcome {
            AttemptOutcome::Answer { ips, ttl_ms } => {
                let mut addrs: Vec<SocketAddress> = Vec::new();
                let n = ips.len();
                let mut i: usize = 0;
                while i < n
                    invariant
                        n == ips@.len(),
                        0 <= i <= n,
                        addrs@.len() == i,
                        forall|j: int|
                            0 <= j < i ==> addrs@[j] == (SocketAddress {
                                ip: ips@[j],
                                port: 0u16,
                            }),
                    decreases n - i,
                {
                    addrs.push(SocketAddress::unrouted(ips[i]));
                    i += 1;
                }
                assert(addrs@ =~= addrs_of(ips@));
                let expires_at_ms: u64 = if ttl_ms > u64::MAX - now {
                    u64::MAX
                } else {
                    now + ttl_ms
                };
                assert(expires_at_ms == expiry_spec(now, ttl_ms));
                let stored = copy_addrs(&addrs);
                self.cache.store(session.host, CacheEntry { addrs: stored, expires_at_ms });
                SessionStep::Done(Ok(addrs))
            },
            AttemptOutcome::Failed(kind) => {
                let done = session.attempts_done + 1;
                if done < self.config.max_attempts {
                    SessionStep::Retry(
                        ResolveSession { host: session.host, attempts_done: done },
                    )
                } else {
                    SessionStep::Done(
                        Err(
                            ResolutionError {
                                host: session.host,
                                cause: kind,
                                attempts: self.config.max_attempts,
                            },
                        ),
                    )
                }
            },
        }
    }
}

/// Cache-hit law: once an answer for a key stands recorded with expiry
/// `exp`, any resolve begun strictly before `exp` is served from the cache —
/// no backend attempt is directed — and returns exactly the recorded
/// addresses. Together with the recording postcondition of
/// [`CachingResolver::on_attempt`], two resolves of one hostname inside the
/// record's validity window perform at most one real lookup and yield
/// identical address sets.
pub proof fn lemma_cache_hit(r: CachingResolver, key: Seq<u8>, addrs: Seq<SocketAddress>, exp: u64, t2: u64)
    requires
        r.spec_cache().record(key) == Some((addrs, exp)),
        t2 < exp,
    ensures
        r.begin_decision(key, t2) == Some(addrs),
{
}

/// Agreement law: the resolver's decision is a function of its state, the
/// key and the time, so every caller that begins a resolve against the same
/// resolver state is served the same address set — a cache read cannot be
/// torn.
pub proof fn lemma_begin_agreement(
    r: CachingResolver,
    key: Seq<u8>,
    now: u64,
    v1: Seq<SocketAddress>,
    v2: Seq<SocketAddress>,
)
    requires
        r.begin_decision(key, now) == Some(v1),
        r.begin_decision(key, now) == Some(v2),
    ensures
        v1 == v2,
{
}

/// Bounded-failure law: a session holds fewer failed attempts than the
/// retry budget, so at most `max_attempts` attempts are ever made; each
/// attempt is cut off at `lookup_timeout_ms`, so a resolution against a
/// backend that never answers fails within
/// `max_attempts * lookup_timeout_ms` — it cannot hang. Each retry step of
/// [`CachingResolver::on_attempt`] lowers `remaining_attempts` by one and
/// the step after it reaches one surfaces the error.
pub proof fn lemma_failure_is_bounded(c: ResolverConfig, s: ResolveSession)
    requires
        c.wf(),
        s.wf(c),
    ensures
        0 < remaining_attempts(c, s.spec_attempts()) <= c.max_attempts,
        remaining_attempts(c, 0u32) == c.max_attempts,
        remaining_attempts(c, s.spec_attempts()) * (c.lookup_timeout_ms as int)
            <= c.worst_case_wait_ms(),
{
    let rem = remaining_attempts(c, s.spec_attempts());
    assert(rem * (c.lookup_timeout_ms as int) <= (c.max_attempts as int) * (
    c.lookup_timeout_ms as int)) by (nonlinear_arith)
        requires
            0 < rem <= c.max_attempts as int,
            c.lookup_timeout_ms >= 1,
    ;
}

} // verus!
