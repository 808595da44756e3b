//! The platform executor: submitting asynchronous units of work.
//!
//! A unit of work communicates no return value; it reports results solely
//! by sending an application event back into the event loop through a
//! cloned event-proxy handle it captured. The executor only schedules it
//! off the caller's thread.

use vstd::prelude::*;

verus! {

/// The kind of drawing context requested when the window is shown.
#[non_exhaustive]
pub enum DrawingContextRequest {
    OpenGL,
}

#[verifier::external_type_specification]
#[verifier::external_body]
pub struct ExThreadPool(futures::executor::ThreadPool);

/// The handle through which asynchronous work is submitted: a worker-thread
/// pool created once at startup and passed to whatever needs to submit,
/// never reached through ambient global state.
pub struct Executor {
    pool: futures::executor::ThreadPool,
}

impl Executor {
    /// Relies on `futures::executor::ThreadPool::new`: it builds a pool of
    /// worker threads sized to the machine, or reports an operating-system
    /// error, mapped to `None` here.
    #[verifier::external_body]
    pub fn new() -> (r: Option<Executor>) {
        match futures::executor::ThreadPool::new() {
            Ok(pool) => Some(Executor { pool }),
            Err(_) => None,
        }
    }
}

/// Submit a self-contained unit of asynchronous work for out-of-band
/// execution, without blocking the caller.
///
/// Relies on `futures::executor::ThreadPool::spawn_ok`: the unit of work
/// is run to completion on the pool's worker threads, concurrently with
/// the caller.
#[verifier::external_body]
pub fn spawn_local(ex: &Executor, work: impl core::future::Future<Output = ()> + Send + 'static) {
    ex.pool.spawn_ok(work)
}

/// One-time process-wide setup before the executor is used. The native
/// environment needs none.
pub fn init() {
}

} // verus!
