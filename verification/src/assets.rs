//! An asset store that hands out integer handles for requested image paths.
//!
//! Loading is asynchronous on the host's side, so each handle carries a small
//! state machine: a request starts pending and is later marked ready or
//! failed by whoever performs the actual I/O. Consumers check the state
//! instead of assuming readiness.

use vstd::prelude::*;

verus! {

/// The lifecycle of one requested asset.
#[derive(Clone, Copy, PartialEq, Eq, Structural, Debug)]
pub enum HandleState {
    /// Requested but not yet resolved by the loader.
    Pending,
    /// The underlying resource arrived and can be drawn.
    Ready,
    /// The loader gave up on the request.
    Failed,
}

/// Records every requested path and the state of its handle. The handle of a
/// request is its position in the request order.
pub struct AssetStore {
    /// The requested paths, in request order.
    pub paths: Vec<String>,
    /// The state of each handle, indexed like `paths`.
    pub states: Vec<HandleState>,
}

impl AssetStore {
    /// One state is tracked per requested path.
    pub open spec fn wf(self) -> bool {
        self.paths@.len() == self.states@.len()
    }

    /// A store with no requests yet.
    pub fn new() -> (s: AssetStore)
        ensures
            s.wf(),
            s.paths@.len() == 0,
    {
        AssetStore { paths: Vec::new(), states: Vec::new() }
    }

    /// Request an asset by path: the new handle starts pending, and earlier
    /// requests are untouched.
    pub fn load(&mut self, path: String) -> (handle: usize)
        requires
            old(self).wf(),
        ensures
            final(self).wf(),
            handle == old(self).paths@.len(),
            final(self).paths@ == old(self).paths@.push(path),
            final(self).states@ == old(self).states@.push(HandleState::Pending),
    {
        let handle = self.paths.len();
        self.paths.push(path);
        self.states.push(HandleState::Pending);
        handle
    }

    /// The state of a handle; a handle that was never issued has no state.
    pub fn state_of(&self, handle: usize) -> (r: Option<HandleState>)
        ensures
            handle < self.states@.len() ==> r == Some(self.states@[handle as int]),
            handle >= self.states@.len() ==> r is None,
    {
        if handle < self.states.len() {
            Some(self.states[handle])
        } else {
            None
        }
    }

    /// Record that the loader resolved or abandoned a handle; only that
    /// handle's state changes.
    pub fn set_state(&mut self, handle: usize, state: HandleState)
        requires
            old(self).wf(),
            handle < old(self).states@.len(),
        ensures
            final(self).wf(),
            final(self).paths@ == old(self).paths@,
            final(self).states@ == old(self).states@.update(handle as int, state),
    {
        self.states[handle] = state;
    }
}

} // verus!
