//! The job model: a shared immutable context and the single delivery
//! attempts derived from it.

use std::sync::Arc;
use vstd::prelude::*;

verus! {

/// Shared, immutable payload for a batch of jobs: the request body and
/// the retry budget — the number of retry attempts a job carrying this
/// context may still make. Shared by reference count among jobs and
/// never mutated after construction.
#[derive(Debug, Clone)]
pub struct Context {
    pub retry_limit: usize,
    pub body: Vec<u8>,
}

impl Context {
    /// Pure construction: any byte payload, any retry budget
    /// (0 means "no retries").
    pub fn new(body: Vec<u8>, retry_limit: usize) -> (c: Context)
        ensures
            c.body == body,
            c.retry_limit == retry_limit,
    {
        Context { retry_limit, body }
    }
}

/// One delivery attempt: a shared context, the number of retries already
/// made, a destination identifier and a correlation string.
#[derive(Debug, Clone)]
pub struct Request {
    pub context: Arc<Context>,
    pub retry_count: usize,
    pub target: String,
    pub identity: String,
}

pub type Job = Request;

impl Request {
    /// A fresh attempt: the retry counter starts at 0.
    pub fn new(context: Arc<Context>, target: String, identity: String) -> (r: Request)
        ensures
            r.context == context,
            r.retry_count == 0,
            r.target == target,
            r.identity == identity,
    {
        Request { context, retry_count: 0, target, identity }
    }

    /// The retried attempt: a job identical to this one except that the
    /// retry counter has grown by one. The context is shared, not cloned.
    pub fn into_retry(self) -> (r: Request)
        requires
            self.retry_count < usize::MAX,
        ensures
            r.context == self.context,
            r.retry_count == self.retry_count + 1,
            r.target == self.target,
            r.identity == self.identity,
    {
        Request {
            context: self.context,
            retry_count: self.retry_count + 1,
            target: self.target,
            identity: self.identity,
        }
    }
}

/// Relies on `Arc::clone`: the clone is another handle to the same
/// allocation, so it carries the same value as the original.
#[verifier::external_body]
pub fn share_context(context: &Arc<Context>) -> (r: Arc<Context>)
    ensures
        r == *context,
{
    Arc::clone(context)
}

} // verus!
