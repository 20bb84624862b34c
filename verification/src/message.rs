//! What travels the queue from submitters to workers.

use vstd::prelude::*;

verus! {

/// Type of computation a worker runs: callable once, sendable to another
/// thread, and alive for at least `'scope`.
pub trait Job<'scope>: FnOnce() + Send + 'scope {

}

impl<'scope, T> Job<'scope> for T where T: FnOnce() + Send + 'scope {

}

/// A message sent to a worker. A `Job` carries the computation to run
/// together with handles to the counters the worker must release once it is
/// done; `Shutdown` tells exactly one worker to exit its loop.
pub enum Message<J, C> {
    Job { job: J, global_counter: C, scope_counter: Option<C> },
    Shutdown,
}

impl<J, C> Message<J, C> {
    /// Whether a worker receiving this message must exit its loop.
    pub fn is_shutdown(&self) -> (r: bool)
        ensures
            r <==> self is Shutdown,
    {
        match self {
            Message::Shutdown => true,
            Message::Job { .. } => false,
        }
    }
}

} // verus!
