//! Handles of the native plotting backend.
//!
//! A figure and a backend are handles without state of their own; what
//! is drawn on a figure reaches the renderer as primitives.

use vstd::prelude::*;
use std::marker::PhantomData;

verus! {

/// The failure of a figure. A figure holds nothing that could fail, so
/// no function returns one, and none can be made outside this module.
#[derive(Clone, Copy, Debug, PartialEq, Eq)]
pub struct BackendError {
    _private: (),
}

/// A figure of the plotting backend.
pub struct Figure {
    _phantom: PhantomData<()>,
}

impl Figure {
    /// Creates a new figure
    pub fn new() -> (figure: Self) {
        Figure { _phantom: PhantomData }
    }

    /// Shows the figure. A figure holds nothing that could fail to show,
    /// so this succeeds.
    pub fn show(&self) -> (shown: Result<(), BackendError>)
        ensures
            shown is Ok,
    {
        Ok(())
    }
}

impl Default for Figure {
    fn default() -> (figure: Self) {
        Figure::new()
    }
}

/// The handle of the rendering backend.
pub struct WgpuBackend {
    _phantom: PhantomData<()>,
}

impl WgpuBackend {
    /// Creates a new backend handle.
    pub fn new() -> (backend: Self) {
        WgpuBackend { _phantom: PhantomData }
    }
}

impl Default for WgpuBackend {
    fn default() -> (backend: Self) {
        WgpuBackend::new()
    }
}

} // verus!
