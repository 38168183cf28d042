//! Per-request authorization gateway: fingerprint derivation, decision
//! cache consultation, and the request's terminal outcome.

use vstd::prelude::*;
use crate::cache::{AuthCache, AuthState, live_map, spec_lookup};
use crate::fingerprint::{derive_fingerprint, spec_fingerprint};

verus! {

/// Process-wide configuration and the shared decision cache. The caller
/// serializes access: the whole decision path of a request runs inside
/// one exclusive critical section over this value.
pub struct AppState {
    /// Location of the external authorization procedure.
    pub auth_script: String,
    /// Root directory of the tile storage.
    pub webroot: String,
    /// Ordered required header names; empty disables authorization.
    pub auth_headers: Vec<String>,
    /// Time-to-live of a cached decision, in seconds.
    pub cache_validity_seconds: u64,
    /// Cache-control header value for successful tile responses; empty
    /// means none is attached.
    pub cache_control_header: String,
    /// The decision cache, owned here for the process lifetime.
    pub auth_cache: AuthCache,
}

/// Where a request stands after the cache has been consulted.
#[derive(Debug)]
pub enum GatewayStep {
    /// Authorization is settled in favour: continue to tile serving.
    Forward,
    /// Authorization is settled against: reject the request.
    Reject,
    /// Cache miss: the external procedure must decide for this
    /// fingerprint, then `finish_auth` records the outcome.
    NeedsCheck(String),
}

/// Terminal outcome of a request's decision path.
#[derive(Debug)]
pub enum GatewayOutcome {
    /// Continue to tile serving.
    Forward,
    /// Reject the request as unauthorized.
    Reject,
    /// The external procedure failed: the request ends in a server
    /// error and nothing is cached.
    InternalError,
}

impl AppState {
    /// Well-formedness: the decision cache holds at most one entry per
    /// fingerprint.
    pub open spec fn wf(&self) -> bool {
        self.auth_cache.wf()
    }

    /// The configuration fields of `b` are those of `a`.
    pub open spec fn same_config(a: &AppState, b: &AppState) -> bool {
        &&& a.auth_script == b.auth_script
        &&& a.webroot == b.webroot
        &&& a.auth_headers == b.auth_headers
        &&& a.cache_validity_seconds == b.cache_validity_seconds
        &&& a.cache_control_header == b.cache_control_header
    }

    /// Runs the first half of the authorization state machine at instant
    /// `now`: bypass when authorization is disabled, fail-closed when a
    /// required header is missing, otherwise sweep the cache and look the
    /// fingerprint up. A cache miss hands the fingerprint back for the
    /// external decision; the cache is touched only on the lookup path.
    pub fn begin_auth(&mut self, req_headers: &Vec<(String, String)>, now: u64) -> (r: GatewayStep)
        requires
            old(self).wf(),
        ensures
            final(self).wf(),
            AppState::same_config(old(self), final(self)),
            old(self).auth_headers@.len() == 0 ==> {
                &&& r is Forward
                &&& final(self).auth_cache@ == old(self).auth_cache@
            },
            old(self).auth_headers@.len() != 0 ==> match spec_fingerprint(
                old(self).auth_headers@,
                req_headers@,
            ) {
                None => {
                    &&& r is Reject
                    &&& final(self).auth_cache@ == old(self).auth_cache@
                },
                Some(fp) => {
                    &&& final(self).auth_cache@ == live_map(old(self).auth_cache@, now)
                    &&& match spec_lookup(old(self).auth_cache@, fp, now) {
                        Some(st) => if st.is_allowed {
                            r is Forward
                        } else {
                            r is Reject
                        },
                        None => r matches GatewayStep::NeedsCheck(s) && s@ == fp,
                    }
                },
            },
    {
        if self.auth_headers.len() == 0 {
            return GatewayStep::Forward;
        }
        match derive_fingerprint(&self.auth_headers, req_headers) {
            None => GatewayStep::Reject,
            Some(fp) => {
                self.auth_cache.sweep(now);
                proof {
                    crate::cache::lemma_sweep_preserves_lookup(
                        old(self).auth_cache@,
                        now,
                        fp@,
                        now,
                    );
                }
                match self.auth_cache.lookup(&fp, now) {
                    Some(st) => {
                        if st.is_allowed {
                            GatewayStep::Forward
                        } else {
                            GatewayStep::Reject
                        }
                    },
                    None => GatewayStep::NeedsCheck(fp),
                }
            },
        }
    }

    /// Runs the second half of the state machine once the external
    /// procedure has been consulted for `fingerprint`. A decision is
    /// cached with a fresh time-to-live and settles the request; a
    /// failed invocation (`None`) ends the request in a server error and
    /// leaves the cache exactly as it was, so the next request retries.
    pub fn finish_auth(&mut self, fingerprint: String, decision: Option<bool>, now: u64) -> (r:
        GatewayOutcome)
        requires
            old(self).wf(),
            now + old(self).cache_validity_seconds <= u64::MAX,
        ensures
            final(self).wf(),
            AppState::same_config(old(self), final(self)),
            match decision {
                None => {
                    &&& r is InternalError
                    &&& final(self).auth_cache@ == old(self).auth_cache@
                },
                Some(allowed) => {
                    &&& final(self).auth_cache@ == old(self).auth_cache@.insert(
                        fingerprint@,
                        AuthState {
                            is_allowed: allowed,
                            exp_time: (now + old(self).cache_validity_seconds) as u64,
                        },
                    )
                    &&& if allowed {
                        r is Forward
                    } else {
                        r is Reject
                    }
                },
            },
    {
        match decision {
            None => GatewayOutcome::InternalError,
            Some(allowed) => {
                self.auth_cache.insert(fingerprint, allowed, now, self.cache_validity_seconds);
                if allowed {
                    GatewayOutcome::Forward
                } else {
                    GatewayOutcome::Reject
                }
            },
        }
    }
}

} // verus!
