//! Counting requests and their outcomes.
use vstd::prelude::*;
use std::sync::atomic::AtomicUsize;

verus! {

/// Attached to a client to collect metrics about its requests.
pub trait MetricsCollector: Send + Sync {
    /// Called just before a request is dispatched.
    fn request_start(&self);

    /// Called just after a request completed, in success or failure, with how long it took.
    fn request_end(&self, duration: std::time::Duration, success: bool);
}

/// A [`MetricsCollector`] that counts requests, their successes, and their failures.
pub struct RequestCounter {
    requested: AtomicUsize,
    respond_success: AtomicUsize,
    respond_failure: AtomicUsize,
}

impl RequestCounter {
    /// A counter at zero.
    pub fn new() -> Self {
        RequestCounter {
            requested: AtomicUsize::new(0),
            respond_success: AtomicUsize::new(0),
            respond_failure: AtomicUsize::new(0),
        }
    }

    /// A snapshot of the counts collected so far. The three counters are read one after the
    /// other while requests may start and end, so the snapshot raises the requested count to the
    /// completed count when it read fewer.
    pub fn get(&self) -> (r: RequestCount)
        ensures
            r.spec_succeeded() + r.spec_failed() <= r.spec_requested(),
    {
        let requested = self.requested.load(std::sync::atomic::Ordering::Relaxed);
        let success = self.respond_success.load(std::sync::atomic::Ordering::Relaxed);
        let failure = self.respond_failure.load(std::sync::atomic::Ordering::Relaxed);
        RequestCount::from_loads(requested, success, failure)
    }
}

impl Default for RequestCounter {
    fn default() -> (r: Self) {
        RequestCounter::new()
    }
}

impl MetricsCollector for RequestCounter {
    fn request_start(&self) {
        self.requested.fetch_add(1, std::sync::atomic::Ordering::Relaxed);
    }

    fn request_end(&self, duration: std::time::Duration, success: bool) {
        if success {
            self.respond_success.fetch_add(1, std::sync::atomic::Ordering::Relaxed);
        } else {
            self.respond_failure.fetch_add(1, std::sync::atomic::Ordering::Relaxed);
        }
    }
}

/// A snapshot of request counts: no more requests completed than were requested.
#[derive(Clone, Copy, Debug)]
pub struct RequestCount {
    requested: usize,
    success: usize,
    failure: usize,
}

impl RequestCount {
    #[verifier::type_invariant]
    spec fn inv(self) -> bool {
        self.success + self.failure <= self.requested
    }

    /// The number of requests started.
    pub closed spec fn spec_requested(&self) -> usize {
        self.requested
    }

    /// The number of requests that succeeded.
    pub closed spec fn spec_succeeded(&self) -> usize {
        self.success
    }

    /// The number of requests that failed.
    pub closed spec fn spec_failed(&self) -> usize {
        self.failure
    }

    /// The snapshot of three counter readings. When fewer requests were read as started than as
    /// completed, the requested count is raised to the completed count. (The completed count is
    /// capped at the largest `usize`, taking the cap out of the failures.)
    pub fn from_loads(requested: usize, success: usize, failure: usize) -> (r: Self)
        ensures
            success + failure <= usize::MAX ==> {
                &&& r.spec_succeeded() == success
                &&& r.spec_failed() == failure
                &&& r.spec_requested() == if requested < success + failure {
                    (success + failure) as usize
                } else {
                    requested
                }
            },
            success + failure > usize::MAX ==> {
                &&& r.spec_succeeded() == success
                &&& r.spec_failed() == usize::MAX - success
                &&& r.spec_requested() == usize::MAX
            },
            r.spec_succeeded() + r.spec_failed() <= r.spec_requested(),
    {
        let failure = if failure > usize::MAX - success {
            usize::MAX - success
        } else {
            failure
        };
        let completed = success + failure;
        let requested = if requested < completed {
            completed
        } else {
            requested
        };
        RequestCount { requested, success, failure }
    }

    /// The number of requests started.
    pub fn requested(&self) -> (r: usize)
        ensures
            r == self.spec_requested(),
    {
        self.requested
    }

    /// The number of requests that succeeded.
    pub fn succeeded(&self) -> (r: usize)
        ensures
            r == self.spec_succeeded(),
    {
        self.success
    }

    /// The number of requests that failed.
    pub fn failed(&self) -> (r: usize)
        ensures
            r == self.spec_failed(),
    {
        self.failure
    }

    /// The number of requests that completed, in success or failure.
    pub fn completed(&self) -> (r: usize)
        ensures
            r == self.spec_succeeded() + self.spec_failed(),
            r <= self.spec_requested(),
    {
        proof {
            use_type_invariant(self);
        }
        self.success + self.failure
    }

    /// The number of requests started but not completed.
    pub fn outstanding(&self) -> (r: usize)
        ensures
            r == self.spec_requested() - (self.spec_succeeded() + self.spec_failed()),
    {
        proof {
            use_type_invariant(self);
        }
        self.requested - self.completed()
    }
}

} // verus!
