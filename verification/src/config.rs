//! Configuration for running an application around the renderer.

use vstd::prelude::*;

verus! {

/// Configuration for a run of the application shell.
pub struct RunConfig<'a> {
    /// The window title.
    pub title: &'a str,
}

impl<'a> RunConfig<'a> {
    /// A run configuration with the given window title.
    pub fn new(title: &'a str) -> (r: Self)
        ensures
            r.title@ == title@,
    {
        RunConfig { title }
    }
}

} // verus!
