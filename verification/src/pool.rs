//! Sizing and lifecycle model of the target-connection pool.
//!
//! The pool itself lives in the unverified driver; this module fixes its
//! configuration — never more connections than workers — and models the
//! acquire/release protocol, proving that no schedule of operations can
//! ever hold more connections than the configured capacity.

use vstd::prelude::*;

verus! {

/// Upper bound on any connection's total lifetime, in hours: forces
/// periodic reconnection regardless of use.
pub const MAX_CONNECTION_LIFETIME_IN_HOURS: u64 = 48;

/// Connections idle for this many hours are recycled.
pub const IDLE_TIMEOUT_IN_HOURS: u64 = 24;

/// The parameters the driver builds the target-connection pool with.
pub struct PoolConfig {
    pub max_connections: u32,
    pub max_lifetime_hours: u64,
    pub idle_timeout_hours: u64,
    pub acquisition_timeout_hours: u64,
}

impl PoolConfig {
    /// Validity: the pool is sized inside the worker-count range and the
    /// acquisition timeout inside its configured range, with the fixed
    /// lifetime policy values.
    pub open spec fn wf(self) -> bool {
        &&& 1 <= self.max_connections <= 10
        &&& 1 <= self.acquisition_timeout_hours <= 72
        &&& self.max_lifetime_hours == MAX_CONNECTION_LIFETIME_IN_HOURS
        &&& self.idle_timeout_hours == IDLE_TIMEOUT_IN_HOURS
    }

    /// Builds the pool configuration for a run: exactly one connection
    /// per worker (the pool never starves workers and is never
    /// oversized), the caller's acquisition timeout, and the fixed
    /// lifetime policy.
    pub fn for_workers(threads: u32, timeout_in_hours: u64) -> (c: PoolConfig)
        requires
            1 <= threads <= 10,
            1 <= timeout_in_hours <= 72,
        ensures
            c.max_connections == threads,
            c.acquisition_timeout_hours == timeout_in_hours,
            c.max_lifetime_hours == MAX_CONNECTION_LIFETIME_IN_HOURS,
            c.idle_timeout_hours == IDLE_TIMEOUT_IN_HOURS,
            c.wf(),
    {
        PoolConfig {
            max_connections: threads,
            max_lifetime_hours: MAX_CONNECTION_LIFETIME_IN_HOURS,
            idle_timeout_hours: IDLE_TIMEOUT_IN_HOURS,
            acquisition_timeout_hours: timeout_in_hours,
        }
    }
}

/// The pool's observable state: how many connections exist and how many
/// are currently checked out by workers.
pub struct PoolState {
    pub capacity: u32,
    pub checked_out: u32,
}

impl PoolState {
    /// The sizing invariant: never more connections checked out than the
    /// pool's capacity.
    pub open spec fn wf(self) -> bool {
        self.checked_out <= self.capacity
    }

    /// A fresh pool for a configuration: full capacity, nothing checked
    /// out yet.
    pub fn new(config: &PoolConfig) -> (p: PoolState)
        ensures
            p.capacity == config.max_connections,
            p.checked_out == 0,
            p.wf(),
    {
        PoolState { capacity: config.max_connections, checked_out: 0 }
    }

    /// A worker asks for a connection. It gets one exactly when the pool
    /// is not exhausted; a refusal (the driver's acquisition timeout)
    /// leaves the pool unchanged. The sizing invariant is preserved
    /// either way.
    pub fn try_acquire(&mut self) -> (got: bool)
        requires
            old(self).wf(),
        ensures
            final(self).capacity == old(self).capacity,
            final(self).wf(),
            got ==> old(self).checked_out < old(self).capacity && final(self).checked_out == old(
                self,
            ).checked_out + 1,
            !got ==> *final(self) == *old(self) && old(self).checked_out == old(self).capacity,
    {
        if self.checked_out < self.capacity {
            self.checked_out = self.checked_out + 1;
            true
        } else {
            false
        }
    }

    /// A worker returns its connection — unconditionally, including
    /// after a failed statement. The sizing invariant is preserved.
    pub fn release(&mut self)
        requires
            old(self).wf(),
            old(self).checked_out > 0,
        ensures
            final(self).capacity == old(self).capacity,
            final(self).checked_out == old(self).checked_out - 1,
            final(self).wf(),
    {
        self.checked_out = self.checked_out - 1;
    }
}

/// One pool operation as seen from outside: a worker's acquisition
/// attempt or its unconditional release.
pub enum PoolOp {
    Acquire,
    Release,
}

/// The number of checked-out connections after a schedule of operations
/// on a pool of the given capacity: an acquisition succeeds only below
/// capacity, a release only when something is checked out.
pub open spec fn checked_out_after(capacity: nat, ops: Seq<PoolOp>) -> nat
    decreases ops.len(),
{
    if ops.len() == 0 {
        0
    } else {
        let before = checked_out_after(capacity, ops.drop_last());
        match ops.last() {
            PoolOp::Acquire => if before < capacity {
                before + 1
            } else {
                before
            },
            PoolOp::Release => if before > 0 {
                (before - 1) as nat
            } else {
                before
            },
        }
    }
}

/// Pool sizing law: for a pool sized to the worker count, no schedule of
/// acquisitions and releases — however the workers interleave — ever
/// checks out more connections than that capacity.
pub proof fn lemma_pool_sizing_invariant(capacity: nat, ops: Seq<PoolOp>)
    ensures
        checked_out_after(capacity, ops) <= capacity,
    decreases ops.len(),
{
    if ops.len() > 0 {
        lemma_pool_sizing_invariant(capacity, ops.drop_last());
    }
}

} // verus!
