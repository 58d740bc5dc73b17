//! The unit of deferred work that callers hand to the pool.

use vstd::prelude::*;

verus! {

/// A type-erased, owned, one-shot callable. The pool's only operation on a
/// job is to invoke it, with no arguments and no return value, exactly once,
/// on some worker thread. A job owns everything it captures and can be moved
/// to another thread.
#[verifier::external_body]
pub struct Job {
    callable: Box<dyn FnOnce() + Send + 'static>,
}

impl Job {
    /// Relies on `Box::new`: stores the callable unchanged and does not run it.
    /// The caller must show the callable's precondition here, once, so that
    /// running the job later cannot fail.
    #[verifier::external_body]
    pub(crate) fn new<F: FnOnce() + Send + 'static>(f: F) -> (job: Job)
        requires
            f.requires(()),
    {
        Job { callable: Box::new(f) }
    }

    /// Relies on `FnOnce::call_once` through the box: invokes the stored
    /// callable exactly once, consuming the job.
    #[verifier::external_body]
    pub(crate) fn run(self) {
        (self.callable)()
    }
}

} // verus!
