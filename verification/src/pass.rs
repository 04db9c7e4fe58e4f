//! The render pass target: the description of the color attachment and its
//! load behavior for one frame's rendering.

use vstd::prelude::*;
use crate::types::{ClearColor, LoadAction};

verus! {

/// One frame's render-pass target, acquired from the render surface.
#[derive(Copy, Clone, Debug, PartialEq, Eq, Structural)]
pub struct RenderPass {
    clear_color: ClearColor,
    load_action: LoadAction,
}

impl RenderPass {
    /// The clear color of the color attachment, for use in specifications.
    pub closed spec fn spec_clear_color(self) -> ClearColor {
        self.clear_color
    }

    /// The load action of the color attachment, for use in specifications.
    pub closed spec fn spec_load_action(self) -> LoadAction {
        self.load_action
    }

    /// A fresh pass target whose attachment keeps its previous contents
    /// until a clear is configured.
    pub fn new() -> (r: RenderPass)
        ensures
            r.spec_clear_color() == (ClearColor {
                red_bits: 0u64,
                green_bits: 0u64,
                blue_bits: 0u64,
                alpha_bits: 0u64,
            }),
            r.spec_load_action() == LoadAction::Load,
    {
        RenderPass {
            clear_color: ClearColor { red_bits: 0, green_bits: 0, blue_bits: 0, alpha_bits: 0 },
            load_action: LoadAction::Load,
        }
    }

    /// Sets the color attachment's clear color and load action.
    pub fn set_clear(&mut self, color: ClearColor, load: LoadAction)
        ensures
            final(self).spec_clear_color() == color,
            final(self).spec_load_action() == load,
    {
        self.clear_color = color;
        self.load_action = load;
    }

    /// The clear color of the color attachment.
    pub fn clear_color(&self) -> (r: ClearColor)
        ensures
            r == self.spec_clear_color(),
    {
        self.clear_color
    }

    /// The load action of the color attachment.
    pub fn load_action(&self) -> (r: LoadAction)
        ensures
            r == self.spec_load_action(),
    {
        self.load_action
    }
}

} // verus!
