use vstd::prelude::*;
use crate::config::ResolverConfig;
use crate::errors::RunError;

verus! {

/// Configuration of a request run: how many sequential requests to issue,
/// the fixed pause between them, and the overall per-request budget.
#[derive(Clone, Copy, PartialEq, Eq, Structural, Debug)]
pub struct RunnerConfig {
    pub count: u32,
    pub inter_request_delay_ms: u64,
    pub request_timeout_ms: u64,
}

impl RunnerConfig {
    pub open spec fn wf(&self) -> bool {
        &&& self.count >= 1
        &&& self.request_timeout_ms >= 1
    }

    /// The per-request budget must exceed the resolver's whole worst-case
    /// wait, so a failing resolution is cut off by its own budget and can
    /// never by itself exhaust the request's.
    pub open spec fn dominates(&self, rc: ResolverConfig) -> bool {
        self.request_timeout_ms as int > rc.worst_case_wait_ms()
    }

    /// Build a run configuration; rejects a zero request count or budget.
    pub fn new(count: u32, inter_request_delay_ms: u64, request_timeout_ms: u64) -> (r: Option<
        RunnerConfig,
    >)
        ensures
            r is Some <==> count >= 1 && request_timeout_ms >= 1,
            r matches Some(c) ==> c == (RunnerConfig {
                count,
                inter_request_delay_ms,
                request_timeout_ms,
            }) && c.wf(),
    {
        if count >= 1 && request_timeout_ms >= 1 {
            Some(RunnerConfig { count, inter_request_delay_ms, request_timeout_ms })
        } else {
            None
        }
    }

    /// Whether this run budget dominates the given resolver configuration.
    pub fn check_dominates(&self, rc: &ResolverConfig) -> (r: bool)
        ensures
            r == self.dominates(*rc),
    {
        proof {
            assert((rc.max_attempts as int) * (rc.lookup_timeout_ms as int) <= (u32::MAX as int)
                * (u64::MAX as int)) by (nonlinear_arith)
                requires
                    0 <= rc.max_attempts <= u32::MAX,
                    0 <= rc.lookup_timeout_ms <= u64::MAX,
            ;
        }
        let worst: u128 = (rc.max_attempts as u128) * (rc.lookup_timeout_ms as u128);
        (self.request_timeout_ms as u128) > worst
    }
}

/// The record of one completed request: the response status code and how
/// long the request took.
#[derive(Clone, Copy, PartialEq, Eq, Structural, Debug)]
pub struct RequestOutcome {
    pub status: u16,
    pub elapsed_ms: u64,
}

/// Where a run stands: still issuing requests, finished with every request
/// completed, or aborted on the first error.
#[derive(Debug)]
pub enum RunState {
    Running,
    Finished,
    Aborted(RunError),
}

/// Drives a fixed number of sequential requests and records each outcome.
///
/// The runner makes the sequencing decisions only: the caller issues each
/// directed request (bounded by `config.request_timeout_ms`, then pausing
/// `config.inter_request_delay_ms`) and reports back. The first reported
/// error aborts the run: no further request is ever directed and the error
/// is surfaced unchanged.
pub struct RequestRunner {
    config: RunnerConfig,
    outcomes: Vec<RequestOutcome>,
    state: RunState,
}

impl RequestRunner {
    pub closed spec fn spec_config(&self) -> RunnerConfig {
        self.config
    }

    pub closed spec fn spec_outcomes(&self) -> Seq<RequestOutcome> {
        self.outcomes@
    }

    pub closed spec fn spec_state(&self) -> RunState {
        self.state
    }

    pub open spec fn wf(&self) -> bool {
        &&& self.spec_config().wf()
        &&& self.spec_outcomes().len() <= self.spec_config().count
        &&& (self.spec_state() is Running ==> self.spec_outcomes().len()
            < self.spec_config().count)
        &&& (self.spec_state() is Finished ==> self.spec_outcomes().len()
            == self.spec_config().count)
    }

    /// A run that has issued nothing yet.
    pub fn new(config: RunnerConfig) -> (r: RequestRunner)
        requires
            config.wf(),
        ensures
            r.wf(),
            r.spec_config() == config,
            r.spec_outcomes() == Seq::<RequestOutcome>::empty(),
            r.spec_state() is Running,
    {
        let r = RequestRunner { config, outcomes: Vec::new(), state: RunState::Running };
        proof {
            assert(r.spec_outcomes() =~= Seq::<RequestOutcome>::empty());
        }
        r
    }

    /// The 1-based index of the next request to issue, or nothing once the
    /// run has finished or aborted. After an abort no request is ever
    /// directed again.
    pub fn next_request(&self) -> (r: Option<u32>)
        requires
            self.wf(),
        ensures
            r is Some <==> self.spec_state() is Running,
            r matches Some(i) ==> i == self.spec_outcomes().len() + 1 && i
                <= self.spec_config().count,
    {
        match self.state {
            RunState::Running => Some((self.outcomes.len() as u32) + 1),
            _ => None,
        }
    }

    /// Record a completed request. The outcome is appended in order; the
    /// run finishes once `count` outcomes stand recorded.
    pub fn record_success(&mut self, status: u16, elapsed_ms: u64)
        requires
            old(self).wf(),
            old(self).spec_state() is Running,
        ensures
            final(self).wf(),
            final(self).spec_config() == old(self).spec_config(),
            final(self).spec_outcomes() == old(self).spec_outcomes().push(
                RequestOutcome { status, elapsed_ms },
            ),
            final(self).spec_state() == (if old(self).spec_outcomes().len() + 1
                == old(self).spec_config().count as int {
                RunState::Finished
            } else {
                RunState::Running
            }),
    {
        self.outcomes.push(RequestOutcome { status, elapsed_ms });
        if self.outcomes.len() as u32 == self.config.count {
            self.state = RunState::Finished;
        }
    }

    /// Record a failed request: the run aborts with that error, keeping the
    /// outcomes recorded so far, and directs no further request.
    pub fn record_failure(&mut self, error: RunError)
        requires
            old(self).wf(),
            old(self).spec_state() is Running,
        ensures
            final(self).wf(),
            final(self).spec_config() == old(self).spec_config(),
            final(self).spec_outcomes() == old(self).spec_outcomes(),
            final(self).spec_state() == RunState::Aborted(error),
    {
        self.state = RunState::Aborted(error);
    }

    /// Whether the run is still issuing requests.
    pub fn is_running(&self) -> (r: bool)
        ensures
            r == (self.spec_state() is Running),
    {
        matches!(self.state, RunState::Running)
    }

    /// The outcomes recorded so far, in request order.
    pub fn outcomes(&self) -> (r: &Vec<RequestOutcome>)
        ensures
            r@ == self.spec_outcomes(),
    {
        &self.outcomes
    }

    /// The aggregate result of a completed run: every outcome when the run
    /// finished, or the first (and only surfaced) error when it aborted.
    pub fn conclude(self) -> (r: Result<Vec<RequestOutcome>, RunError>)
        requires
            self.wf(),
            !(self.spec_state() is Running),
        ensures
            r matches Ok(v) ==> self.spec_state() is Finished && v@ == self.spec_outcomes()
                && v@.len() == self.spec_config().count,
            r matches Err(e) ==> self.spec_state() == RunState::Aborted(e),
    {
        match self.state {
            RunState::Aborted(e) => Err(e),
            _ => Ok(self.outcomes),
        }
    }
}

} // verus!
