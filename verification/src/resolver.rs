use vstd::prelude::*;
use crate::codec::GetEthBalanceResp;
use crate::codec::spec_decode_balance;
use crate::errors::ResolveError;

verus! {

/// The states a single resolution passes through: check the cache, call
/// the upstream node, populate the cache, and the terminal success and
/// failure states.
#[derive(Clone, Copy, Debug, PartialEq, Eq, Structural)]
pub enum ResolveState {
    CacheCheck,
    UpstreamCall,
    CacheUpdate { wei: u128 },
    Done { wei: u128 },
    Failed { err: ResolveError },
}

/// What the driver must do next: read the cache for the resolution's
/// address, send the balance request upstream, write the decoded balance
/// under the address, or stop because the resolution is terminal.
#[derive(Clone, Copy, Debug, PartialEq, Eq, Structural)]
pub enum ResolveAction {
    ReadCache,
    CallUpstream,
    WriteCache { wei: u128 },
    Halt,
}

/// Events emitted for the metrics sink: a resolution served from the
/// cache, or one that had to request the upstream node.
#[derive(Clone, Copy, Debug, PartialEq, Eq, Structural)]
pub enum Observation {
    CacheHit,
    UpstreamRequest,
}

/// What a cache read came back with: a stored balance, no fresh entry, or
/// a read-level fault of the cache service.
#[derive(Clone, Copy, Debug, PartialEq, Eq, Structural)]
pub enum CacheReadOutcome {
    Hit { wei: u128 },
    Miss,
    Fault,
}

/// What the upstream call came back with: an HTTP response carrying the
/// decoded envelope, or a transport-level failure.
pub enum UpstreamOutcome {
    Response { status: u16, body: GetEthBalanceResp },
    Unreachable,
}

/// What a cache write came back with.
#[derive(Clone, Copy, Debug, PartialEq, Eq, Structural)]
pub enum CacheWriteOutcome {
    Written,
    Fault,
}

/// The HTTP status is in the success class.
pub open spec fn spec_success_status(status: u16) -> bool {
    200 <= status < 300
}

/// Where a resolution starts: at the cache check when a cache is
/// configured, directly at the upstream call otherwise.
pub open spec fn spec_start(cache_configured: bool) -> (ResolveState, ResolveAction, Option<
    Observation,
>) {
    if cache_configured {
        (ResolveState::CacheCheck, ResolveAction::ReadCache, None)
    } else {
        (
            ResolveState::UpstreamCall,
            ResolveAction::CallUpstream,
            Some(Observation::UpstreamRequest),
        )
    }
}

/// The step taken on the cache read's outcome: a hit short-circuits to
/// `Done` with the cached value; a miss goes on to the upstream call. A
/// read fault is tolerated and treated as a miss — the cache never blocks
/// a resolution on the read side (the write side is fail-closed instead).
pub open spec fn spec_cache_read_step(outcome: CacheReadOutcome) -> (
    ResolveState,
    ResolveAction,
    Option<Observation>,
) {
    match outcome {
        CacheReadOutcome::Hit { wei } => (
            ResolveState::Done { wei },
            ResolveAction::Halt,
            Some(Observation::CacheHit),
        ),
        CacheReadOutcome::Miss => (
            ResolveState::UpstreamCall,
            ResolveAction::CallUpstream,
            Some(Observation::UpstreamRequest),
        ),
        CacheReadOutcome::Fault => (
            ResolveState::UpstreamCall,
            ResolveAction::CallUpstream,
            Some(Observation::UpstreamRequest),
        ),
    }
}

/// The step taken on the upstream call's outcome: transport failure and
/// non-success statuses fail the resolution; on a success status the
/// result string is decoded, a decode failure fails the resolution, and a
/// decoded balance moves on to the cache write when a cache is configured
/// and to `Done` otherwise.
pub open spec fn spec_upstream_step(cache_configured: bool, outcome: UpstreamOutcome) -> (
    ResolveState,
    ResolveAction,
    Option<Observation>,
) {
    match outcome {
        UpstreamOutcome::Unreachable => (
            ResolveState::Failed { err: ResolveError::UpstreamUnreachable },
            ResolveAction::Halt,
            None,
        ),
        UpstreamOutcome::Response { status, body } => {
            if !spec_success_status(status) {
                (
                    ResolveState::Failed { err: ResolveError::UpstreamHttpError { status } },
                    ResolveAction::Halt,
                    None,
                )
            } else {
                match spec_decode_balance(body.result@) {
                    Err(err) => (ResolveState::Failed { err }, ResolveAction::Halt, None),
                    Ok(wei) => if cache_configured {
                        (
                            ResolveState::CacheUpdate { wei },
                            ResolveAction::WriteCache { wei },
                            None,
                        )
                    } else {
                        (ResolveState::Done { wei }, ResolveAction::Halt, None)
                    },
                }
            }
        },
    }
}

/// The step taken on the cache write's outcome: success completes the
/// resolution with the decoded balance; a write fault aborts the whole
/// resolution even though decoding succeeded (fail-closed write).
pub open spec fn spec_cache_write_step(wei: u128, outcome: CacheWriteOutcome) -> (
    ResolveState,
    ResolveAction,
    Option<Observation>,
) {
    match outcome {
        CacheWriteOutcome::Written => (ResolveState::Done { wei }, ResolveAction::Halt, None),
        CacheWriteOutcome::Fault => (
            ResolveState::Failed { err: ResolveError::CacheOperationError },
            ResolveAction::Halt,
            None,
        ),
    }
}

/// One in-flight resolution of a balance query: the address under
/// resolution, whether a cache store is configured, and the current state.
/// The driver performs each returned action and feeds the outcome back in;
/// every transition is the one the `spec_` step functions describe.
pub struct Resolution {
    pub address: String,
    pub cache_configured: bool,
    pub state: ResolveState,
}

impl Resolution {
    /// Begin resolving `address`, returning the first action to perform.
    pub fn start(address: &str, cache_configured: bool) -> (r: (
        Resolution,
        ResolveAction,
        Option<Observation>,
    ))
        ensures
            r.0.address@ == address@,
            r.0.cache_configured == cache_configured,
            (r.0.state, r.1, r.2) == spec_start(cache_configured),
    {
        let (state, action, obs) = if cache_configured {
            (ResolveState::CacheCheck, ResolveAction::ReadCache, None)
        } else {
            (
                ResolveState::UpstreamCall,
                ResolveAction::CallUpstream,
                Some(Observation::UpstreamRequest),
            )
        };
        (Resolution { address: address.to_owned(), cache_configured, state }, action, obs)
    }

    /// Feed in the outcome of the cache read.
    pub fn on_cache_read(&mut self, outcome: CacheReadOutcome) -> (r: (
        ResolveAction,
        Option<Observation>,
    ))
        requires
            old(self).state is CacheCheck,
            old(self).cache_configured,
        ensures
            final(self).address == old(self).address,
            final(self).cache_configured == old(self).cache_configured,
            (final(self).state, r.0, r.1) == spec_cache_read_step(outcome),
    {
        match outcome {
            CacheReadOutcome::Hit { wei } => {
                self.state = ResolveState::Done { wei };
                (ResolveAction::Halt, Some(Observation::CacheHit))
            },
            CacheReadOutcome::Miss => {
                self.state = ResolveState::UpstreamCall;
                (ResolveAction::CallUpstream, Some(Observation::UpstreamRequest))
            },
            CacheReadOutcome::Fault => {
                self.state = ResolveState::UpstreamCall;
                (ResolveAction::CallUpstream, Some(Observation::UpstreamRequest))
            },
        }
    }

    /// Feed in the outcome of the upstream call.
    pub fn on_upstream(&mut self, outcome: UpstreamOutcome) -> (r: (
        ResolveAction,
        Option<Observation>,
    ))
        requires
            old(self).state is UpstreamCall,
        ensures
            final(self).address == old(self).address,
            final(self).cache_configured == old(self).cache_configured,
            (final(self).state, r.0, r.1) == spec_upstream_step(old(self).cache_configured, outcome),
    {
        match outcome {
            UpstreamOutcome::Unreachable => {
                self.state = ResolveState::Failed { err: ResolveError::UpstreamUnreachable };
                (ResolveAction::Halt, None)
            },
            UpstreamOutcome::Response { status, body } => {
                if !(200 <= status && status < 300) {
                    self.state = ResolveState::Failed {
                        err: ResolveError::UpstreamHttpError { status },
                    };
                    (ResolveAction::Halt, None)
                } else {
                    match body.decode_balance() {
                        Err(err) => {
                            self.state = ResolveState::Failed { err };
                            (ResolveAction::Halt, None)
                        },
                        Ok(wei) => {
                            if self.cache_configured {
                                self.state = ResolveState::CacheUpdate { wei };
                                (ResolveAction::WriteCache { wei }, None)
                            } else {
                                self.state = ResolveState::Done { wei };
                                (ResolveAction::Halt, None)
                            }
                        },
                    }
                }
            },
        }
    }

    /// Feed in the outcome of the cache write.
    pub fn on_cache_write(&mut self, outcome: CacheWriteOutcome) -> (r: (
        ResolveAction,
        Option<Observation>,
    ))
        requires
            old(self).state is CacheUpdate,
            old(self).cache_configured,
        ensures
            final(self).address == old(self).address,
            final(self).cache_configured == old(self).cache_configured,
            (final(self).state, r.0, r.1) == spec_cache_write_step(
                old(self).state->CacheUpdate_wei,
                outcome,
            ),
    {
        let wei = match self.state {
            ResolveState::CacheUpdate { wei } => wei,
            _ => 0,
        };
        match outcome {
            CacheWriteOutcome::Written => {
                self.state = ResolveState::Done { wei };
                (ResolveAction::Halt, None)
            },
            CacheWriteOutcome::Fault => {
                self.state = ResolveState::Failed { err: ResolveError::CacheOperationError };
                (ResolveAction::Halt, None)
            },
        }
    }

    /// The upstream request body for this resolution: the canonical
    /// balance-query envelope for the address under resolution.
    pub fn request_body(&self) -> (r: String)
        ensures
            r@ == crate::codec::spec_request_json("eth_getBalance"@, self.address@),
    {
        let body = crate::codec::GetEthBalanceBody::new(self.address.as_str());
        body.json_body()
    }

    /// The resolution's result once it is terminal: the balance in wei, or
    /// the error that ended it; nothing while steps remain.
    pub fn finished(&self) -> (r: Option<Result<u128, ResolveError>>)
        ensures
            r is Some <==> (self.state is Done || self.state is Failed),
            self.state is Done ==> r == Some(Ok::<u128, ResolveError>(self.state->Done_wei)),
            self.state is Failed ==> r == Some(
                Err::<u128, ResolveError>(self.state->Failed_err),
            ),
    {
        match self.state {
            ResolveState::Done { wei } => Some(Ok(wei)),
            ResolveState::Failed { err } => Some(Err(err)),
            _ => None,
        }
    }
}

/// With a configured cache and a fresh entry for the address, resolution
/// returns the cached balance: the run goes straight from the cache check
/// to `Done`, emits a cache-hit observation, and no step of it asks for an
/// upstream call.
pub proof fn lemma_cache_hit_short_circuits(wei: u128)
    ensures
        ({
            let (s1, a1, o1) = spec_start(true);
            let (s2, a2, o2) = spec_cache_read_step(CacheReadOutcome::Hit { wei });
            &&& s1 is CacheCheck
            &&& a1 == ResolveAction::ReadCache
            &&& o1 is None
            &&& s2 == (ResolveState::Done { wei })
            &&& a2 == ResolveAction::Halt
            &&& o2 == Some(Observation::CacheHit)
            &&& !(a1 is CallUpstream)
            &&& !(a2 is CallUpstream)
        }),
{
}

/// With a configured cache but no fresh entry (a miss, or a tolerated
/// read fault), resolution asks for exactly one upstream call, and a
/// success-class response whose payload decodes moves it to writing the
/// decoded balance into the cache. The write itself then leaves an entry
/// that is fresh at the write time (`TtlCache::write` together with
/// `lemma_written_entry_is_fresh`).
pub proof fn lemma_cache_miss_single_upstream(
    outcome: CacheReadOutcome,
    status: u16,
    body: GetEthBalanceResp,
    wei: u128,
)
    requires
        !(outcome is Hit),
        spec_success_status(status),
        spec_decode_balance(body.result@) == Ok::<u128, ResolveError>(wei),
    ensures
        ({
            let (s1, a1, o1) = spec_start(true);
            let (s2, a2, o2) = spec_cache_read_step(outcome);
            let (s3, a3, o3) = spec_upstream_step(true, UpstreamOutcome::Response { status, body });
            let (s4, a4, o4) = spec_cache_write_step(wei, CacheWriteOutcome::Written);
            &&& a1 == ResolveAction::ReadCache
            &&& !(a1 is CallUpstream)
            &&& a2 == ResolveAction::CallUpstream
            &&& o2 == Some(Observation::UpstreamRequest)
            &&& s3 == (ResolveState::CacheUpdate { wei })
            &&& a3 == (ResolveAction::WriteCache { wei })
            &&& !(a3 is CallUpstream)
            &&& s4 == (ResolveState::Done { wei })
            &&& a4 == ResolveAction::Halt
            &&& !(a4 is CallUpstream)
        }),
{
}

/// A success-class response whose payload does not decode fails the
/// resolution with that decode error, and no cache write is asked for:
/// a malformed balance is never written to the cache.
pub proof fn lemma_decode_failure_not_cached(
    cache_configured: bool,
    status: u16,
    body: GetEthBalanceResp,
)
    requires
        spec_success_status(status),
        spec_decode_balance(body.result@) is Err,
    ensures
        ({
            let (s, a, o) = spec_upstream_step(
                cache_configured,
                UpstreamOutcome::Response { status, body },
            );
            &&& s == (ResolveState::Failed { err: spec_decode_balance(body.result@)->Err_0 })
            &&& a == ResolveAction::Halt
            &&& !(a is WriteCache)
        }),
{
}

/// A non-success response status fails the resolution with that status,
/// and no cache write is asked for.
pub proof fn lemma_http_failure_not_cached(
    cache_configured: bool,
    status: u16,
    body: GetEthBalanceResp,
)
    requires
        !spec_success_status(status),
    ensures
        ({
            let (s, a, o) = spec_upstream_step(
                cache_configured,
                UpstreamOutcome::Response { status, body },
            );
            &&& s == (ResolveState::Failed { err: ResolveError::UpstreamHttpError { status } })
            &&& a == ResolveAction::Halt
            &&& !(a is WriteCache)
        }),
{
}

/// A cache write failure aborts the whole resolution with
/// `CacheOperationError`, even though decoding already succeeded: the
/// write is fail-closed, not fire-and-forget.
pub proof fn lemma_write_failure_aborts(wei: u128)
    ensures
        ({
            let (s, a, o) = spec_cache_write_step(wei, CacheWriteOutcome::Fault);
            &&& s == (ResolveState::Failed { err: ResolveError::CacheOperationError })
            &&& a == ResolveAction::Halt
        }),
{
}

/// Without a configured cache the resolver still answers, always by
/// upstream call: no step of the run touches the cache, a decodable
/// success-class response completes the resolution, and no cache error
/// can arise.
pub proof fn lemma_cacheless_resolution(outcome: UpstreamOutcome)
    ensures
        ({
            let (s1, a1, o1) = spec_start(false);
            let (s2, a2, o2) = spec_upstream_step(false, outcome);
            &&& s1 is UpstreamCall
            &&& a1 == ResolveAction::CallUpstream
            &&& !(a1 is ReadCache) && !(a1 is WriteCache)
            &&& !(a2 is ReadCache) && !(a2 is WriteCache)
            &&& s2 is Failed ==> !(s2->Failed_err is CacheOperationError) && !(
                s2->Failed_err is CacheUnavailable)
            &&& match outcome {
                UpstreamOutcome::Response { status, body } => spec_success_status(status)
                    && spec_decode_balance(body.result@) is Ok ==> s2 == (ResolveState::Done {
                    wei: spec_decode_balance(body.result@)->Ok_0,
                }),
                UpstreamOutcome::Unreachable => true,
            }
        }),
{
}

} // verus!

