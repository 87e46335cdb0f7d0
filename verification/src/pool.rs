//! The connection pool's configuration contract.
//!
//! The pool itself is pure resource lifecycle management of live backend
//! connections and holds no task state; what the core fixes is its shape:
//! how many connections it may hand out at once, how long an acquire may
//! block, when idle and long-lived connections are dropped, and that every
//! connection is validated at checkout.

use vstd::prelude::*;

verus! {

/// Configuration of the bounded connection pool.
#[derive(Clone, Copy, Debug, PartialEq, Eq, Structural)]
pub struct PoolConfig {
    /// Largest number of connections handed out concurrently.
    pub max_size: u32,
    /// Smallest number of idle connections kept ready.
    pub min_idle: u32,
    /// How long an acquire may block before it fails, in seconds.
    pub connection_timeout_secs: u64,
    /// How long an idle connection is kept, in seconds.
    pub idle_timeout_secs: u64,
    /// How long any connection lives at most, in seconds.
    pub max_lifetime_secs: u64,
    /// Whether every connection is validated at checkout.
    pub test_on_check_out: bool,
}

impl PoolConfig {
    /// A pool configuration is coherent when it keeps at least one but no
    /// more idle connections than it may hand out, blocks acquires for a
    /// bounded positive time, and retires idle connections no later than it
    /// retires any connection.
    pub open spec fn wf(self) -> bool {
        &&& 1 <= self.min_idle <= self.max_size
        &&& 0 < self.connection_timeout_secs
        &&& 0 < self.idle_timeout_secs <= self.max_lifetime_secs
    }

    /// The pool shape the backend is run with: at most five concurrent
    /// connections, one kept idle, a sixty-second acquire timeout, idle
    /// connections dropped after five minutes, every connection recycled
    /// after thirty minutes, and validation at checkout.
    pub fn standard() -> (c: PoolConfig)
        ensures
            c.wf(),
            c.max_size == 5,
            c.min_idle == 1,
            c.connection_timeout_secs == 60,
            c.idle_timeout_secs == 300,
            c.max_lifetime_secs == 1800,
            c.test_on_check_out,
    {
        PoolConfig {
            max_size: 5,
            min_idle: 1,
            connection_timeout_secs: 60,
            idle_timeout_secs: 300,
            max_lifetime_secs: 1800,
            test_on_check_out: true,
        }
    }
}

} // verus!
