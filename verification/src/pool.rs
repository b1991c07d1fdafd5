//! The connection-pool manager.
//!
//! The pool is a bounded resource shared by all requests; the store client
//! it hands out, and the pooling machinery itself, live outside this crate.
//! The manager here is stateless: it only fixes the pool's configuration.

use vstd::prelude::*;

verus! {

/// Stateless manager for the store connection pool.
pub struct PoolManager {}

/// The fixed capacity of the connection pool.
pub open spec fn pool_capacity() -> int {
    16
}

impl PoolManager {
    pub fn new() -> (m: PoolManager)
        ensures
            m == (PoolManager {  }),
    {
        PoolManager {  }
    }

    /// How many connections the pool may hand out at once; acquisition
    /// blocks when all of them are held.
    pub fn max_connections(&self) -> (n: usize)
        ensures
            n == pool_capacity(),
    {
        16
    }
}

} // verus!
