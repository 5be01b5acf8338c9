//! Creation rate limiter: per-client admission control in front of the
//! creation service.  The quota bookkeeping lives in governor's keyed
//! rate limiter, whose outcomes depend on the wall clock; the admission
//! policy around it — an unresolvable client is never denied — is
//! verified.

use vstd::prelude::*;

verus! {

/// Per-client admission control for link creation, keyed by the client's
/// address rendered as a string.  State is per-process and in-memory.
#[verifier::external_body]
pub struct CreateRateLimiter {
    inner: std::sync::Arc<governor::DefaultKeyedRateLimiter<String>>,
}

impl CreateRateLimiter {
    /// Relies on governor's keyed rate limiter with a per-minute quota;
    /// admission outcomes depend on the wall clock, so nothing is assumed
    /// of them.
    #[verifier::external_body]
    fn with_quota(requests_per_minute: u32) -> (r: CreateRateLimiter)
        requires
            1 <= requests_per_minute,
    {
        let rpm = std::num::NonZeroU32::new(requests_per_minute).unwrap();
        CreateRateLimiter {
            inner: std::sync::Arc::new(governor::RateLimiter::keyed(governor::Quota::per_minute(rpm))),
        }
    }

    /// A limiter allowing up to `requests_per_minute` creations per rolling
    /// minute per client; a zero quota is raised to one.
    pub fn new(requests_per_minute: u32) -> (r: CreateRateLimiter) {
        if requests_per_minute == 0 {
            CreateRateLimiter::with_quota(1)
        } else {
            CreateRateLimiter::with_quota(requests_per_minute)
        }
    }

    /// Relies on governor's `check_key`; the outcome depends on the clock
    /// and the limiter's history, so nothing is assumed of it.
    #[verifier::external_body]
    pub fn check(&self, key: &str) -> bool {
        self.inner.check_key(&key.to_string()).is_ok()
    }
}

/// Admission in front of the creation service: a request whose client
/// address could not be resolved skips admission control and is never
/// denied here; any other request consumes quota for its address.
pub fn admit_creation(limiter: &CreateRateLimiter, peer: Option<&str>) -> (admitted: bool)
    ensures
        peer is None ==> admitted,
{
    match peer {
        None => true,
        Some(addr) => limiter.check(addr),
    }
}

} // verus!
