//! The drawable: the presentable target surface image for the current
//! frame, acquired from the render surface and presented exactly once after
//! submission.

use vstd::prelude::*;

verus! {

/// One frame's presentable surface image.
#[derive(Copy, Clone, Debug, PartialEq, Eq, Structural)]
pub struct Drawable {
    id: u64,
    presented: bool,
}

impl Drawable {
    /// The backend's identifier for this drawable, for use in
    /// specifications.
    pub closed spec fn spec_id(self) -> u64 {
        self.id
    }

    /// Whether the drawable has been presented, for use in specifications.
    pub closed spec fn spec_presented(self) -> bool {
        self.presented
    }

    /// A fresh, not yet presented drawable under the backend identifier
    /// `id`.
    pub fn new(id: u64) -> (r: Drawable)
        ensures
            r.spec_id() == id,
            !r.spec_presented(),
    {
        Drawable { id, presented: false }
    }

    /// The backend's identifier for this drawable.
    pub fn id(&self) -> (r: u64)
        ensures
            r == self.spec_id(),
    {
        self.id
    }

    /// Whether the drawable has been presented.
    pub fn was_presented(&self) -> (r: bool)
        ensures
            r == self.spec_presented(),
    {
        self.presented
    }

    /// Presents the drawable.
    pub fn present(&mut self)
        ensures
            final(self).spec_id() == old(self).spec_id(),
            final(self).spec_presented(),
    {
        self.presented = true;
    }
}

} // verus!
