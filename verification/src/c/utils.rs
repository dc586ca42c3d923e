//! The pool of accepted connections.

use vstd::prelude::*;

verus! {

/// Number of handles in one pool: a TCP console serves no more clients than
/// this at a time.
pub const FD_POOL_MAX: usize = 16;

/// FD pool
#[derive(Debug)]
pub struct fd_pool {
    pub fd: [i32; FD_POOL_MAX],
    /// The pool that continues this one, if any.
    pub next: Option<Box<fd_pool>>,
}

pub type fd_pool_t = fd_pool;

impl fd_pool {
    /// A pool of its own, every slot 0.
    pub fn new() -> (pool: Self)
        ensures
            pool.next is None,
            pool.fd@ == Seq::new(FD_POOL_MAX as nat, |i: int| 0i32),
    {
        Self { fd: [0;FD_POOL_MAX], next: None }
    }
}

impl Default for fd_pool {
    fn default() -> (pool: Self)
        ensures
            pool.next is None,
            pool.fd@ == Seq::new(FD_POOL_MAX as nat, |i: int| 0i32),
    {
        Self::new()
    }
}

} // verus!
