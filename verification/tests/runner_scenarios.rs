use dnscache::{
    AttemptOutcome, CachingResolver, Hostname, IpAddress, RequestRunner, ResolutionErrorKind,
    ResolveStart, ResolverConfig, RunError, RunnerConfig, SessionStep, SocketAddress,
};

fn host(raw: &[u8]) -> Hostname {
    Hostname::from_bytes(&raw.to_vec()).expect("hostname should be acceptable")
}

/// A mock HTTP target reachable at one address: serves status 200 there and
/// counts the requests that arrived.
struct MockServer {
    addr: SocketAddress,
    served: usize,
}

/// A mock resolution backend for one hostname, counting real lookups.
struct MockBackend {
    name: Hostname,
    answer: Option<(IpAddress, u64)>,
    lookups: usize,
}

impl MockBackend {
    fn lookup(&mut self, h: &Hostname) -> AttemptOutcome {
        self.lookups += 1;
        match self.answer {
            Some((ip, ttl_ms)) if h.key_eq(&self.name) => {
                AttemptOutcome::Answer { ips: vec![ip], ttl_ms }
            }
            Some(_) => AttemptOutcome::Failed(ResolutionErrorKind::NameNotFound),
            None => AttemptOutcome::Failed(ResolutionErrorKind::Timeout),
        }
    }
}

fn resolve(
    resolver: &mut CachingResolver,
    backend: &mut MockBackend,
    h: &Hostname,
    now: u64,
) -> Result<Vec<SocketAddress>, dnscache::ResolutionError> {
    let mut session = match resolver.begin(h, now) {
        ResolveStart::Hit(addrs) => return Ok(addrs),
        ResolveStart::Miss(s) => s,
    };
    loop {
        let outcome = backend.lookup(session.host());
        match resolver.on_attempt(session, outcome, now) {
            SessionStep::Done(res) => return res,
            SessionStep::Retry(s) => session = s,
        }
    }
}

/// One request through the connector path: resolve, overwrite the port,
/// connect to the mock server if the address matches.
fn issue_request(
    resolver: &mut CachingResolver,
    backend: &mut MockBackend,
    server: &mut MockServer,
    h: &Hostname,
    port: u16,
    now: u64,
) -> Result<u16, RunError> {
    let addrs = resolve(resolver, backend, h, now)
        .map_err(RunError::Resolution)?;
    let target = addrs
        .first()
        .map(|a| a.with_port(port))
        .ok_or(RunError::Connection)?;
    if target == server.addr {
        server.served += 1;
        Ok(200)
    } else {
        Err(RunError::Connection)
    }
}

#[test]
fn three_requests_one_lookup_all_succeed() {
    let rcfg = ResolverConfig::new(1024, 3000, 2, true).expect("positive bounds");
    let runcfg = RunnerConfig::new(3, 100, 10_000).expect("positive bounds");
    assert!(runcfg.check_dominates(&rcfg));

    let mut resolver = CachingResolver::new(rcfg);
    let h = host(b"example.test");
    let ip = IpAddress::v4_from_octets(10, 0, 0, 1);
    let mut backend = MockBackend { name: host(b"example.test"), answer: Some((ip, 3_600_000)), lookups: 0 };
    let mut server = MockServer { addr: SocketAddress { ip, port: 443 }, served: 0 };

    let mut runner = RequestRunner::new(runcfg);
    let mut now: u64 = 0;
    let mut issued: Vec<u32> = Vec::new();
    while let Some(i) = runner.next_request() {
        issued.push(i);
        let status = issue_request(&mut resolver, &mut backend, &mut server, &h, 443, now)
            .expect("request succeeds");
        runner.record_success(status, 30);
        now += runcfg.inter_request_delay_ms;
    }

    // Requests were issued strictly in order, every one succeeded, and the
    // whole run needed exactly one real lookup.
    assert_eq!(issued, vec![1, 2, 3]);
    assert_eq!(server.served, 3);
    assert_eq!(backend.lookups, 1);
    let outcomes = runner.conclude().expect("run finished");
    assert_eq!(outcomes.len(), 3);
    assert!(outcomes.iter().all(|o| o.status == 200));
}

#[test]
fn run_aborts_on_first_resolution_failure() {
    let rcfg = ResolverConfig::new(1024, 3000, 2, true).expect("positive bounds");
    let runcfg = RunnerConfig::new(5, 100, 10_000).expect("positive bounds");

    let mut resolver = CachingResolver::new(rcfg);
    let h = host(b"example.test");
    let mut backend = MockBackend { name: host(b"example.test"), answer: None, lookups: 0 };
    let mut server = MockServer {
        addr: SocketAddress { ip: IpAddress::v4_from_octets(10, 0, 0, 1), port: 443 },
        served: 0,
    };

    let mut runner = RequestRunner::new(runcfg);
    let mut requests_issued = 0;
    while let Some(_i) = runner.next_request() {
        requests_issued += 1;
        match issue_request(&mut resolver, &mut backend, &mut server, &h, 443, 0) {
            Ok(status) => runner.record_success(status, 30),
            Err(e) => runner.record_failure(e),
        }
    }

    // The first request failed resolution; the run aborted there and issued
    // zero further requests.
    assert_eq!(requests_issued, 1);
    assert_eq!(backend.lookups, 2); // the resolver's own retry budget, not the runner's
    assert_eq!(server.served, 0);
    let err = runner.conclude().expect_err("run aborted");
    match err {
        RunError::Resolution(e) => {
            assert_eq!(e.cause, ResolutionErrorKind::Timeout);
            assert_eq!(e.attempts, 2);
        }
        _ => panic!("expected a resolution error"),
    }
}

#[test]
fn empty_resolved_set_is_a_connection_error_for_the_run() {
    let rcfg = ResolverConfig::new(16, 1000, 2, true).expect("positive bounds");
    let runcfg = RunnerConfig::new(3, 0, 10_000).expect("positive bounds");

    let mut resolver = CachingResolver::new(rcfg);
    let h = host(b"norecords.test");
    // The backend knows the name but has zero records for it: resolution
    // succeeds with an empty set, which the connector treats as unusable.
    let mut backend = MockBackend { name: host(b"norecords.test"), answer: None, lookups: 0 };
    let mut server = MockServer {
        addr: SocketAddress { ip: IpAddress::v4_from_octets(10, 0, 0, 1), port: 443 },
        served: 0,
    };

    let mut runner = RequestRunner::new(runcfg);
    // Pre-populate the cache with an empty answer to exercise the empty path.
    match resolver.begin(&h, 0) {
        ResolveStart::Miss(s) => {
            let step = resolver.on_attempt(
                s,
                AttemptOutcome::Answer { ips: vec![], ttl_ms: 60_000 },
                0,
            );
            assert!(matches!(step, SessionStep::Done(Ok(v)) if v.is_empty()));
        }
        ResolveStart::Hit(_) => panic!("fresh resolver cannot hit"),
    }

    while let Some(_i) = runner.next_request() {
        match issue_request(&mut resolver, &mut backend, &mut server, &h, 443, 1) {
            Ok(status) => runner.record_success(status, 10),
            Err(e) => runner.record_failure(e),
        }
    }

    assert_eq!(backend.lookups, 0, "empty answer was served from the cache");
    assert_eq!(server.served, 0);
    let err = runner.conclude().expect_err("run aborted");
    assert!(matches!(err, RunError::Connection));
}

#[test]
fn runner_finishes_after_exact_count() {
    let runcfg = RunnerConfig::new(2, 0, 1000).expect("positive bounds");
    let mut runner = RequestRunner::new(runcfg);
    assert_eq!(runner.next_request(), Some(1));
    runner.record_success(200, 10);
    assert_eq!(runner.next_request(), Some(2));
    runner.record_success(204, 20);
    assert_eq!(runner.next_request(), None);
    assert!(!runner.is_running());
    let outcomes = runner.conclude().expect("finished");
    assert_eq!(outcomes[0].status, 200);
    assert_eq!(outcomes[0].elapsed_ms, 10);
    assert_eq!(outcomes[1].status, 204);
    assert_eq!(outcomes[1].elapsed_ms, 20);
}

#[test]
fn aborted_runner_keeps_prior_outcomes_and_stops() {
    let runcfg = RunnerConfig::new(4, 0, 1000).expect("positive bounds");
    let mut runner = RequestRunner::new(runcfg);
    runner.record_success(200, 5);
    runner.record_failure(RunError::RequestTimeout);
    assert_eq!(runner.next_request(), None);
    assert_eq!(runner.outcomes().len(), 1);
    let err = runner.conclude().expect_err("aborted");
    assert!(matches!(err, RunError::RequestTimeout));
}

#[test]
fn runner_config_rejects_zero_bounds() {
    assert!(RunnerConfig::new(0, 100, 1000).is_none());
    assert!(RunnerConfig::new(3, 100, 0).is_none());
    let c = RunnerConfig::new(5, 100, 10_000).expect("positive bounds accepted");
    assert_eq!(c.count, 5);
    assert_eq!(c.inter_request_delay_ms, 100);
    assert_eq!(c.request_timeout_ms, 10_000);
}

#[test]
fn request_budget_must_dominate_worst_case_resolution() {
    let rcfg = ResolverConfig::new(16, 3000, 2, true).expect("positive bounds");
    // worst case wait: 2 * 3000 = 6000
    assert!(RunnerConfig::new(1, 0, 6001).unwrap().check_dominates(&rcfg));
    assert!(!RunnerConfig::new(1, 0, 6000).unwrap().check_dominates(&rcfg));
}
