//! A safety-oriented facade over a native GPU rendering API.
//!
//! The crate models the frame-submission and resource-binding layer of a
//! single-threaded, immediate-mode renderer: typed GPU buffers with checked
//! writes, an argument (binding) table, pipeline compilation and
//! configuration, and the per-frame command-recording protocol
//! (allocate, record, bind, submit, present).  Every operation is specified
//! and verified; a platform backend drives the real GPU from the recorded
//! model state.

pub mod argument;
pub mod buffer;
pub mod command;
pub mod config;
pub mod device;
pub mod drawable;
pub mod errors;
pub mod events;
pub mod frame;
pub mod pass;
pub mod pipeline;
pub mod renderer;
pub mod swapchain;
pub mod types;

pub use argument::{ArgumentTable, Bindable};
pub use buffer::{HasGpuAddress, IndexBuffer, IndexKind, Uniform, Vertex};
pub use command::{Command, CommandAllocator, CommandBuffer, Queue, QueueOp, RenderEncoder};
pub use config::RunConfig;
pub use device::Device;
pub use drawable::Drawable;
pub use errors::{Error, MissingField};
pub use events::{ElementState, Modifiers, MouseButton, TouchPhase};
pub use frame::RenderFrame;
pub use pass::RenderPass;
pub use pipeline::{Library, PipelineState, RenderPipelineBuilder};
pub use renderer::{
    background_color, FrameStatus, Renderer, INDEX_SLOT, UNIFORM_SLOT, VERTEX_SLOT,
};
pub use swapchain::{ColorSpace, FixedSurface, PresentMode, RenderSurface, SwapchainConfig};
pub use types::{
    ClearColor, DeviceHandle, LoadAction, PixelFormat, PrimitiveType, RenderStages,
    ResourceOptions, StoreAction,
};
