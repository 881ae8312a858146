//! The stage: the top-level object a program builds once, owning the
//! executor the actors play on.
//!
//! A [`StageBuilder`] either receives an executor or builds the default
//! one; the resulting [`Stage`] owns the pool and hands out [`Scenes`] —
//! cloneable views used to spawn actors onto it.  A stage can also be
//! made from a bare pool handle when the surrounding program already
//! runs inside a pool; such a stage owns nothing and cannot block on a
//! future itself.

use vstd::prelude::*;
use tokio::runtime::Handle;
use crate::executor::{StageError, TokioExecutor, TokioExecutorBuilder, TokioExecutorHandle};

verus! {

/// A cloneable view onto the stage: the handle actor tasks are spawned
/// with.
#[derive(Clone)]
pub struct Scenes {
    handle: TokioExecutorHandle,
}

impl Scenes {
    /// The pool handle this scene spawns through.
    pub closed spec fn spec_handle(&self) -> TokioExecutorHandle {
        self.handle
    }

    /// A view spawning onto the pool behind this handle.
    pub fn new(handle: TokioExecutorHandle) -> (r: Scenes)
        ensures
            r.spec_handle() == handle,
    {
        Scenes { handle }
    }

    /// The pool handle, for the task-spawning glue.
    pub fn handle(&self) -> (r: &TokioExecutorHandle)
        ensures
            *r == self.spec_handle(),
    {
        &self.handle
    }
}

/// The built runtime: the owned executor, if any, and the scene handed
/// to spawners.
pub struct Stage {
    executor: Option<TokioExecutor>,
    scene: Scenes,
}

impl Stage {
    /// The executor this stage owns, if it owns one.
    pub closed spec fn spec_executor(&self) -> Option<TokioExecutor> {
        self.executor
    }

    /// The scene this stage hands to spawners.
    pub closed spec fn spec_scene(&self) -> Scenes {
        self.scene
    }

    /// Whether this stage owns its pool.  One made from a bare handle
    /// does not, and cannot block on a future itself.
    pub open spec fn owns_pool(&self) -> bool {
        self.spec_executor() is Some
    }

    /// A stage over a pool that something else owns: the handle only
    /// proves a pool exists to spawn onto, and the stage's scene spawns
    /// through exactly that handle.
    pub fn from_handle(handle: Handle) -> (r: Stage)
        ensures
            !r.owns_pool(),
            r.spec_scene().spec_handle().spec_raw() == handle,
    {
        Stage { executor: None, scene: Scenes::new(TokioExecutorHandle::new(handle)) }
    }

    /// The scene actors are spawned through: this stage's own.
    pub fn scene(&self) -> (r: &Scenes)
        ensures
            *r == self.spec_scene(),
    {
        &self.scene
    }

    /// The owned executor — exactly the one this stage was built over —
    /// present exactly when the stage owns its pool; the program's edge
    /// blocks on futures through it.
    pub fn executor(&self) -> (r: Option<&TokioExecutor>)
        ensures
            match r {
                Some(e) => self.spec_executor() == Some(*e),
                None => self.spec_executor() is None,
            },
    {
        match &self.executor {
            Some(e) => Some(e),
            None => None,
        }
    }

    /// Gives the stage up; an owned pool winds its threads down.
    pub fn shutdown(self) {
    }
}

/// Builds a [`Stage`], with a supplied executor or the default one.
pub struct StageBuilder {
    executor: Option<TokioExecutor>,
}

impl StageBuilder {
    /// The executor supplied so far, if any.
    pub closed spec fn spec_executor(&self) -> Option<TokioExecutor> {
        self.executor
    }

    /// Whether an executor was supplied; without one, building sets up
    /// the default pool.
    pub open spec fn has_executor(&self) -> bool {
        self.spec_executor() is Some
    }

    /// A builder with no executor supplied yet.
    pub fn new() -> (r: StageBuilder)
        ensures
            !r.has_executor(),
    {
        StageBuilder { executor: None }
    }

    /// Supplies the executor the stage will own, replacing any supplied
    /// before.
    pub fn executor(self, executor: TokioExecutor) -> (r: StageBuilder)
        ensures
            r.spec_executor() == Some(executor),
    {
        StageBuilder { executor: Some(executor) }
    }

    /// Builds the stage.  A supplied executor always succeeds and is
    /// owned, unchanged, by the stage produced — the stage runs on
    /// exactly that pool.  Without one the default pool is built, which
    /// fails only if the operating system refuses the resources.
    pub fn build(self) -> (r: Result<Stage, StageError>)
        ensures
            self.spec_executor() matches Some(e) ==> r matches Ok(s) && s.spec_executor()
                == Some(e),
            r matches Ok(s) ==> s.owns_pool(),
    {
        let e = match self.executor {
            Some(e) => e,
            None => match TokioExecutorBuilder::new().build() {
                Ok(e) => e,
                Err(err) => {
                    return Err(err);
                },
            },
        };
        let scene = Scenes::new(e.handle().clone());
        Ok(Stage { executor: Some(e), scene })
    }
}

impl Default for StageBuilder {
    /// Same as [`StageBuilder::new`].
    fn default() -> (r: StageBuilder)
        ensures
            !r.has_executor(),
    {
        StageBuilder::new()
    }
}

} // verus!
