//! Plain data types shared across the facade.
//!
//! These mirror the fixed-function enumerations a GPU API exposes, as plain
//! values that contracts can speak about.  Color channels are carried as the
//! raw bit patterns of the backend's floating-point channel values, so that
//! the facade only ever propagates them.

use vstd::prelude::*;

verus! {

/// The pixel format of a render target or swapchain image.
#[derive(Copy, Clone, Debug, PartialEq, Eq, Structural)]
pub enum PixelFormat {
    /// 8-bit-per-channel BGRA, normalized.
    Bgra8Unorm,
    /// 8-bit-per-channel BGRA, normalized, sRGB-encoded.
    Bgra8UnormSrgb,
    /// 8-bit-per-channel RGBA, normalized.
    Rgba8Unorm,
    /// 16-bit-per-channel RGBA, extended range.
    Rgba16,
}

/// The primitive topology of a draw call.
#[derive(Copy, Clone, Debug, PartialEq, Eq, Structural)]
pub enum PrimitiveType {
    /// Rasterize each vertex as a point.
    Point,
    /// Rasterize each pair of vertices as a line segment.
    Line,
    /// Rasterize the vertices as a connected line strip.
    LineStrip,
    /// Rasterize each triple of vertices as a triangle.
    Triangle,
    /// Rasterize the vertices as a connected triangle strip.
    TriangleStrip,
}

/// The shader stages an argument table is made visible to.
#[derive(Copy, Clone, Debug, PartialEq, Eq, Structural)]
pub enum RenderStages {
    /// The vertex stage only.
    Vertex,
    /// The fragment stage only.
    Fragment,
    /// Both the vertex and the fragment stage.
    VertexAndFragment,
}

/// What happens to a color attachment when a render pass begins.
#[derive(Copy, Clone, Debug, PartialEq, Eq, Structural)]
pub enum LoadAction {
    /// Clear the attachment to the pass's clear color.
    Clear,
    /// Keep the attachment's previous contents.
    Load,
    /// Leave the attachment's initial contents undefined.
    DontCare,
}

/// What happens to a color attachment when a render pass ends.
#[derive(Copy, Clone, Debug, PartialEq, Eq, Structural)]
pub enum StoreAction {
    /// Keep the rendered contents.
    Store,
    /// Discard the rendered contents.
    DontCare,
}

/// Cache and storage options for a newly created GPU buffer.
#[derive(Copy, Clone, Debug, PartialEq, Eq, Structural)]
pub enum ResourceOptions {
    /// The default CPU cache mode.
    CpuCacheModeDefaultCache,
    /// Storage visible to both CPU and GPU.
    StorageModeShared,
    /// Storage private to the GPU.
    StorageModePrivate,
}

/// A render pass's clear color.
///
/// Each channel holds the raw bit pattern of the backend's double-precision
/// channel value; the facade never computes with the channels, it only
/// stores and propagates them.
#[derive(Copy, Clone, Debug, PartialEq, Eq, Structural)]
pub struct ClearColor {
    /// Bit pattern of the red channel.
    pub red_bits: u64,
    /// Bit pattern of the green channel.
    pub green_bits: u64,
    /// Bit pattern of the blue channel.
    pub blue_bits: u64,
    /// Bit pattern of the alpha channel.
    pub alpha_bits: u64,
}

/// An opaque identifier for the GPU device behind a render surface.
///
/// Stable for the surface's lifetime.
#[derive(Copy, Clone, Debug, PartialEq, Eq, Structural)]
pub struct DeviceHandle {
    /// The backend's identifier for the device.
    pub id: u64,
}

} // verus!
