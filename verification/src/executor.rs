//! The asynchronous executor the runtime runs on: a tokio multi-thread
//! pool, held behind a small configuration layer.
//!
//! The pool itself is an opaque collaborator — it must provide task
//! spawning, blocking a thread on a future, running CPU-bound work off
//! the async pool, and a timer.  What is verified here is the
//! configuration logic: how a builder's settings become a pool, and that
//! a built executor hands out a handle to that pool.

use vstd::prelude::*;
use tokio::runtime::{Handle, Runtime};

verus! {

/// The default ceiling on threads for CPU-bound work.
pub const DEFAULT_SYNC_THREADS: usize = 1024;

/// The default stack size of a pool thread, in bytes.
pub const DEFAULT_STACK_SIZE: usize = 4194304;

/// The executor could not be set up.
#[derive(Clone, Copy, Debug, PartialEq, Eq, Structural)]
pub enum StageError {
    /// The thread pool could not be built: an operating-system resource
    /// was refused.
    RuntimeBuild,
}

#[verifier::external_type_specification]
#[verifier::external_body]
pub struct ExRuntime(Runtime);

#[verifier::external_type_specification]
#[verifier::external_body]
pub struct ExHandle(Handle);

/// Relies on tokio::runtime::Builder: a multi-thread pool with the given
/// worker count, blocking-thread ceiling and stack size, with I/O and
/// time drivers enabled.  Both thread counts must be at least 1: tokio
/// documents that `worker_threads` and `max_blocking_threads` panic on
/// 0.  Whether the operating system grants the resources is its own
/// affair: nothing is promised of the outcome.
#[verifier::external_body]
fn build_runtime(workers: usize, sync_threads: usize, stack_size: usize) -> (r: Result<
    Runtime,
    StageError,
>)
    requires
        workers >= 1,
        sync_threads >= 1,
{
    tokio::runtime::Builder::new_multi_thread()
        .worker_threads(workers)
        .max_blocking_threads(sync_threads)
        .thread_stack_size(stack_size)
        .enable_all()
        .build()
        .map_err(|_| StageError::RuntimeBuild)
}

/// Relies on tokio::runtime::Runtime::handle: the handle to this pool.
#[verifier::external_body]
fn runtime_handle(rt: &Runtime) -> &Handle {
    rt.handle()
}

/// Relies on tokio::runtime::Handle::clone: another handle to the same
/// pool.  Nothing is assumed of the returned value.
pub assume_specification[ <Handle as core::clone::Clone>::clone ](h: &Handle) -> Handle;

/// Relies on num_cpus::get, documented to always return at least 1: the
/// number of CPUs available to this process.
#[verifier::external_body]
fn available_cpus() -> (r: usize)
    ensures
        r >= 1,
{
    num_cpus::get()
}

/// Configuration of a [`TokioExecutor`] before it is built.
pub struct TokioExecutorBuilder {
    /// Worker threads of the async pool.
    pub async_workers: usize,
    /// Ceiling on additional threads for CPU-bound work.
    pub sync_threads: usize,
    /// Stack size of each pool thread, in bytes.
    pub stack_size: usize,
}

impl TokioExecutorBuilder {
    /// The default configuration: one async worker per available CPU,
    /// the default blocking-thread ceiling and stack size.
    pub fn new() -> (r: TokioExecutorBuilder)
        ensures
            r.async_workers >= 1,
            r.sync_threads == DEFAULT_SYNC_THREADS,
            r.stack_size == DEFAULT_STACK_SIZE,
    {
        TokioExecutorBuilder {
            async_workers: available_cpus(),
            sync_threads: DEFAULT_SYNC_THREADS,
            stack_size: DEFAULT_STACK_SIZE,
        }
    }

    /// Sets the number of async worker threads.
    pub fn async_workers(self, n: usize) -> (r: TokioExecutorBuilder)
        ensures
            r.async_workers == n,
            r.sync_threads == self.sync_threads,
            r.stack_size == self.stack_size,
    {
        TokioExecutorBuilder { async_workers: n, ..self }
    }

    /// Sets the ceiling on threads for CPU-bound work.
    pub fn sync_threads(self, n: usize) -> (r: TokioExecutorBuilder)
        ensures
            r.sync_threads == n,
            r.async_workers == self.async_workers,
            r.stack_size == self.stack_size,
    {
        TokioExecutorBuilder { sync_threads: n, ..self }
    }

    /// Sets the stack size of each pool thread.
    pub fn stack_size(self, n: usize) -> (r: TokioExecutorBuilder)
        ensures
            r.stack_size == n,
            r.async_workers == self.async_workers,
            r.sync_threads == self.sync_threads,
    {
        TokioExecutorBuilder { stack_size: n, ..self }
    }

    /// Builds the pool with this configuration.  Both thread counts must
    /// be at least 1 — the pool builder rejects 0 of either — and the
    /// defaults are.  Fails only if the operating system refuses the
    /// resources.
    pub fn build(self) -> (r: Result<TokioExecutor, StageError>)
        requires
            self.async_workers >= 1,
            self.sync_threads >= 1,
    {
        match build_runtime(self.async_workers, self.sync_threads, self.stack_size) {
            Ok(rt) => Ok(TokioExecutor::new(rt)),
            Err(e) => Err(e),
        }
    }
}

impl Default for TokioExecutorBuilder {
    /// Same as [`TokioExecutorBuilder::new`].
    fn default() -> (r: TokioExecutorBuilder)
        ensures
            r.async_workers >= 1,
            r.sync_threads == DEFAULT_SYNC_THREADS,
            r.stack_size == DEFAULT_STACK_SIZE,
    {
        TokioExecutorBuilder::new()
    }
}

/// A cloneable handle to a built pool, used to spawn tasks onto it.
#[derive(Clone)]
pub struct TokioExecutorHandle {
    handle: Handle,
}

impl TokioExecutorHandle {
    /// The raw pool handle this wrapper carries.
    pub closed spec fn spec_raw(&self) -> Handle {
        self.handle
    }

    /// Wraps a raw pool handle.
    pub fn new(handle: Handle) -> (r: TokioExecutorHandle)
        ensures
            r.spec_raw() == handle,
    {
        TokioExecutorHandle { handle }
    }

    /// The raw pool handle, for the task-spawning glue.
    pub fn raw(&self) -> (r: &Handle)
        ensures
            *r == self.spec_raw(),
    {
        &self.handle
    }
}

/// An owned tokio pool together with a handle to it.
pub struct TokioExecutor {
    runtime: Runtime,
    handle: TokioExecutorHandle,
}

impl TokioExecutor {
    /// The pool this executor owns.
    pub closed spec fn spec_runtime(&self) -> Runtime {
        self.runtime
    }

    /// The handle this executor hands out.
    pub closed spec fn spec_handle(&self) -> TokioExecutorHandle {
        self.handle
    }

    /// Wraps an owned pool, taking a handle to it.
    pub fn new(rt: Runtime) -> (r: TokioExecutor)
        ensures
            r.spec_runtime() == rt,
    {
        let h = runtime_handle(&rt).clone();
        TokioExecutor { runtime: rt, handle: TokioExecutorHandle { handle: h } }
    }

    /// The handle to this pool.
    pub fn handle(&self) -> (r: &TokioExecutorHandle)
        ensures
            *r == self.spec_handle(),
    {
        &self.handle
    }

    /// The owned pool itself, for blocking on a future at the program's
    /// edge.
    pub fn runtime(&self) -> (r: &Runtime)
        ensures
            *r == self.spec_runtime(),
    {
        &self.runtime
    }

    /// Gives the pool up; dropping it winds its threads down.
    pub fn shutdown(self) {
    }
}

} // verus!
