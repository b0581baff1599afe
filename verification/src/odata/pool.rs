//! Connection pool: an upper bound on concurrent in-flight calls, enforced with a
//! semaphore.  At most `cap` calls run at once; a pool-exhausted error reports a
//! full pool.

use vstd::prelude::*;
use std::sync::Arc;
use tokio::sync::{OwnedSemaphorePermit, Semaphore};
use crate::odata::error::{D365Error, D365Result};

verus! {

#[verifier::external_type_specification]
#[verifier::external_body]
pub struct ExSemaphore(Semaphore);

#[verifier::external_type_specification]
#[verifier::external_body]
pub struct ExOwnedSemaphorePermit(OwnedSemaphorePermit);

/// The most permits a tokio semaphore accepts (`Semaphore::MAX_PERMITS`).
pub const MAX_POOL_CAP: usize = usize::MAX / 8;

/// Calls `tokio::sync::Semaphore::new`, which creates a semaphore holding
/// `permits` permits; it panics above `Semaphore::MAX_PERMITS` (`usize::MAX >> 3`),
/// which the precondition excludes.
#[verifier::external_body]
fn semaphore_new(permits: usize) -> (s: Semaphore)
    requires
        permits <= MAX_POOL_CAP,
{
    Semaphore::new(permits)
}

/// Calls `tokio::sync::Semaphore::available_permits`: the permits free at this
/// moment, which depends on the calls in flight in other tasks and on permits
/// added through the semaphore.  tokio stores the count shifted left by one bit
/// in a `usize` and returns it shifted back, so it is at most `usize::MAX / 2`;
/// that is all that is stated of it.
#[verifier::external_body]
fn semaphore_available(s: &Semaphore) -> (n: usize)
    ensures
        n <= usize::MAX / 2,
{
    s.available_permits()
}

/// Calls `tokio::sync::Semaphore::try_acquire_owned`: a permit if one is free at
/// this moment, `None` when none is (or the semaphore was closed).  Whether one is
/// free depends on other tasks; nothing is stated of the outcome.
#[verifier::external_body]
fn semaphore_try_acquire(s: Arc<Semaphore>) -> Option<OwnedSemaphorePermit> {
    s.try_acquire_owned().ok()
}

/// A semaphore-based concurrency limiter.  A clone shares the semaphore.
pub struct ConnectionPool {
    cap: usize,
    sem: Arc<Semaphore>,
}

impl Clone for ConnectionPool {
    /// The same pool: the same cap and the same semaphore.
    fn clone(&self) -> (r: Self)
        ensures
            r.cap_limit() == self.cap_limit(),
            r.semaphore_of() == self.semaphore_of(),
    {
        proof {
            use_type_invariant(self);
        }
        ConnectionPool { cap: self.cap, sem: self.sem.clone() }
    }
}

impl ConnectionPool {
    /// The bound on concurrent calls.
    pub closed spec fn cap_limit(&self) -> usize {
        self.cap
    }

    /// The semaphore whose permits are the pool's slots.
    pub closed spec fn semaphore_of(&self) -> Arc<Semaphore> {
        self.sem
    }

    #[verifier::type_invariant]
    spec fn well_formed(&self) -> bool {
        1 <= self.cap <= MAX_POOL_CAP
    }

    /// A pool of `cap` slots; a requested cap of 0 is raised to 1.
    pub fn new(cap: usize) -> (p: Self)
        requires
            cap <= MAX_POOL_CAP,
        ensures
            p.cap_limit() == if cap == 0 {
                1
            } else {
                cap
            },
    {
        let cap = if cap == 0 {
            1
        } else {
            cap
        };
        ConnectionPool { cap, sem: Arc::new(semaphore_new(cap)) }
    }

    pub fn cap(&self) -> (c: usize)
        ensures
            c == self.cap_limit(),
            c >= 1,
    {
        proof {
            use_type_invariant(self);
        }
        self.cap
    }

    /// Slots free at this moment (at most `usize::MAX / 2`, the most tokio's
    /// permit count can hold; it can exceed the cap if permits were added through
    /// `semaphore()`).
    pub fn available(&self) -> (n: usize)
        ensures
            n <= usize::MAX / 2,
    {
        semaphore_available(&self.sem)
    }

    /// Take a slot without waiting; `PoolExhausted` (carrying the cap) when no slot
    /// is free.
    pub fn try_acquire(&self) -> (r: D365Result<OwnedSemaphorePermit>)
        ensures
            r is Err ==> (r matches Err(D365Error::PoolExhausted { cap }) && cap
                == self.cap_limit()),
    {
        match semaphore_try_acquire(self.sem.clone()) {
            Some(p) => Ok(p),
            None => Err(D365Error::PoolExhausted { cap: self.cap }),
        }
    }

    /// The semaphore behind the pool, for callers that wait for a slot.
    pub fn semaphore(&self) -> (s: &Arc<Semaphore>)
        ensures
            *s == self.semaphore_of(),
    {
        &self.sem
    }
}

} // verus!
