//! Swapchain configuration and the render surface interface.
//!
//! The render surface is the facade's only inbound boundary: the
//! windowing/swapchain layer implements it and supplies the current
//! render-pass target and drawable (either may be absent while the surface
//! is unable to produce one, for example mid-resize), the device handle,
//! and the presentation pixel format.

use vstd::prelude::*;
use crate::drawable::Drawable;
use crate::pass::RenderPass;
use crate::types::{DeviceHandle, PixelFormat};

verus! {

/// How presentation is paced.
#[derive(Copy, Clone, Debug, PartialEq, Eq, Structural)]
pub enum PresentMode {
    /// Present in sync with the display.
    Fifo,
    /// Present as fast as possible.
    Immediate,
}

/// The color space of the swapchain.
#[derive(Copy, Clone, Debug, PartialEq, Eq, Structural)]
pub enum ColorSpace {
    /// Standard sRGB.
    SRGB,
    /// Display P3.
    DisplayP3,
    /// Extended-range sRGB.
    ExtendedSRGB,
}

/// Configuration knobs the platform layer applies to its swapchain.
#[derive(Copy, Clone, Debug, PartialEq, Eq, Structural)]
pub struct SwapchainConfig {
    /// The pixel format of the swapchain images.
    pub pixel_format: PixelFormat,
    /// Whether images are usable as render targets only.
    pub framebuffer_only: bool,
    /// The maximum number of in-flight drawables.
    pub max_drawables: u32,
    /// How presentation is paced.
    pub present_mode: PresentMode,
    /// The color space of the swapchain.
    pub colorspace: ColorSpace,
    /// Whether extended dynamic range content is wanted.
    pub wants_edr: bool,
}

impl Default for SwapchainConfig {
    /// The default swapchain: three 8-bit BGRA framebuffer-only drawables,
    /// presented in sync with the display, in sRGB, without extended
    /// dynamic range.
    fn default() -> (r: Self)
        ensures
            r == (SwapchainConfig {
                pixel_format: PixelFormat::Bgra8Unorm,
                framebuffer_only: true,
                max_drawables: 3u32,
                present_mode: PresentMode::Fifo,
                colorspace: ColorSpace::SRGB,
                wants_edr: false,
            }),
    {
        SwapchainConfig {
            pixel_format: PixelFormat::Bgra8Unorm,
            framebuffer_only: true,
            max_drawables: 3,
            present_mode: PresentMode::Fifo,
            colorspace: ColorSpace::SRGB,
            wants_edr: false,
        }
    }
}

/// The render surface: supplies the current render-pass target and
/// drawable, the device handle, and the presentation pixel format.  A
/// windowing backend implements it; `None` from either acquisition method
/// signals that no target is available this tick, and the frame is skipped.
pub trait RenderSurface {
    /// The device handle, for use in specifications.
    spec fn spec_device(&self) -> DeviceHandle;

    /// The presentation pixel format, for use in specifications.
    spec fn spec_color_pixel_format(&self) -> PixelFormat;

    /// The current render-pass target, or `None` if the surface cannot
    /// produce one this tick.
    fn current_render_pass_target(&mut self) -> Option<RenderPass>;

    /// The current drawable, or `None` if the surface cannot produce one
    /// this tick.
    fn current_drawable(&mut self) -> Option<Drawable>;

    /// The device handle, stable for the surface's lifetime.
    fn device(&self) -> (r: DeviceHandle)
        ensures
            r == self.spec_device(),
    ;

    /// The presentation pixel format, stable for the surface's lifetime.
    fn color_pixel_format(&self) -> (r: PixelFormat)
        ensures
            r == self.spec_color_pixel_format(),
    ;
}

/// A surface that hands out copies of fixed acquisition results: a
/// reference implementation of [`RenderSurface`], and a convenient stand-in
/// for a windowing backend in tests.
pub struct FixedSurface {
    /// The pass target handed out on every acquisition, or `None`.
    pub pass: Option<RenderPass>,
    /// The drawable handed out on every acquisition, or `None`.
    pub drawable: Option<Drawable>,
    /// The device handle.
    pub handle: DeviceHandle,
    /// The presentation pixel format.
    pub format: PixelFormat,
}

impl RenderSurface for FixedSurface {
    closed spec fn spec_device(&self) -> DeviceHandle {
        self.handle
    }

    closed spec fn spec_color_pixel_format(&self) -> PixelFormat {
        self.format
    }

    fn current_render_pass_target(&mut self) -> Option<RenderPass> {
        self.pass
    }

    fn current_drawable(&mut self) -> Option<Drawable> {
        self.drawable
    }

    fn device(&self) -> (r: DeviceHandle) {
        self.handle
    }

    fn color_pixel_format(&self) -> (r: PixelFormat) {
        self.format
    }
}

} // verus!
