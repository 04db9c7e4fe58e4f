//! The device: root capability object and factory for every other resource.
//!
//! The model device carries the backend's device handle and an allocator of
//! GPU addresses.  Each buffer created through the device receives a fresh,
//! nonzero address, which stays stable for the buffer's lifetime.

use vstd::prelude::*;
use crate::argument::ArgumentTable;
use crate::buffer::{HasGpuAddress, IndexBuffer, IndexKind, Uniform, Vertex};
use crate::command::{CommandAllocator, Queue, QueueOp};
use crate::errors::Error;
use crate::pipeline::{Library, RenderPipelineBuilder};
use crate::swapchain::RenderSurface;
use crate::types::{DeviceHandle, ResourceOptions};

verus! {

/// The root capability object, created from a render surface's device handle
/// and owned by the renderer for its whole lifetime.
pub struct Device {
    handle: DeviceHandle,
    next_address: u64,
}

impl Device {
    /// The backend device handle this device was created from.
    pub closed spec fn spec_handle(self) -> DeviceHandle {
        self.handle
    }

    /// The next GPU address this device will hand to a new buffer.
    pub closed spec fn spec_next_address(self) -> u64 {
        self.next_address
    }

    /// A device hands out only nonzero GPU addresses.
    pub open spec fn wf(self) -> bool {
        self.spec_next_address() >= 1
    }

    /// Creates a device from a backend device handle.
    pub fn from_handle(handle: DeviceHandle) -> (r: Device)
        ensures
            r.spec_handle() == handle,
            r.spec_next_address() == 1u64,
            r.wf(),
    {
        Device { handle, next_address: 1 }
    }

    /// The backend device handle, stable for the device's lifetime.
    pub fn handle(&self) -> (r: DeviceHandle)
        ensures
            r == self.spec_handle(),
    {
        self.handle
    }

    /// Hands out the next GPU address, advancing the allocator.
    pub(crate) fn fresh_address(&mut self) -> (a: u64)
        requires
            old(self).spec_next_address() < u64::MAX,
            old(self).wf(),
        ensures
            a == old(self).spec_next_address(),
            a >= 1,
            final(self).spec_next_address() == old(self).spec_next_address() + 1,
            final(self).spec_handle() == old(self).spec_handle(),
            final(self).wf(),
    {
        let a = self.next_address;
        self.next_address = self.next_address + 1;
        a
    }

    /// Creates a device from the render surface's device handle.
    pub fn from_surface<S: RenderSurface>(surface: &S) -> (r: Device)
        ensures
            r.spec_handle() == surface.spec_device(),
            r.spec_next_address() == 1u64,
            r.wf(),
    {
        Device::from_handle(surface.device())
    }

    /// Registers a shader library compiled from `source` under `name`.
    ///
    /// The model registers the module as given; a platform backend that
    /// compiles the source reports a rejected module as a compilation
    /// error before anything reaches this device.
    pub fn compile_library_from_source(&self, name: &str, source: &str) -> (r: Result<
        Library,
        Error,
    >)
        ensures
            r matches Ok(lib) && {
                &&& lib.spec_name() == name@
                &&& lib.spec_source() == source@
            },
    {
        Ok(Library::from_parts(name, source))
    }

    /// A fresh pipeline builder over `library`, with no field set.
    pub fn pipeline_builder(&self, library: &Library) -> (r: RenderPipelineBuilder)
        ensures
            r.spec_library() == library.spec_name(),
            r.spec_vertex() is None,
            r.spec_fragment() is None,
            r.spec_color_format() is None,
            !r.spec_blending(),
    {
        RenderPipelineBuilder::over_library(library)
    }

    /// Creates a vertex buffer holding a copy of `data`.
    pub fn vertex_buffer_from_slice<T: Copy>(&mut self, data: &[T], options: ResourceOptions) -> (r:
        Vertex<T>)
        requires
            old(self).wf(),
            old(self).spec_next_address() < u64::MAX,
        ensures
            r@.len() == data@.len(),
            forall|i: int| 0 <= i < data@.len() ==> r@[i] == Some(data@[i]),
            r.spec_gpu_address() == old(self).spec_next_address(),
            r.spec_options() == options,
            final(self).spec_handle() == old(self).spec_handle(),
            final(self).spec_next_address() == old(self).spec_next_address() + 1,
            final(self).wf(),
    {
        Vertex::from_slice(self, data, options)
    }

    /// Creates an uninitialized uniform buffer for `len_elems` elements.
    pub fn uniform_buffer_with_len<T: Copy>(&mut self, len_elems: usize, options: ResourceOptions)
        -> (r: Uniform<T>)
        requires
            old(self).wf(),
            old(self).spec_next_address() < u64::MAX,
        ensures
            r@.len() == len_elems,
            forall|i: int| 0 <= i < len_elems ==> r@[i] is None,
            r.spec_gpu_address() == old(self).spec_next_address(),
            r.spec_options() == options,
            final(self).spec_handle() == old(self).spec_handle(),
            final(self).spec_next_address() == old(self).spec_next_address() + 1,
            final(self).wf(),
    {
        Uniform::with_len(self, len_elems, options)
    }

    /// Creates an index buffer from 16-bit indices.
    pub fn index_buffer_from_u16(&mut self, data: &[u16], options: ResourceOptions) -> (r:
        IndexBuffer)
        requires
            old(self).wf(),
            old(self).spec_next_address() < u64::MAX,
        ensures
            r@.len() == data@.len(),
            forall|i: int| 0 <= i < data@.len() ==> r@[i] == Some(data@[i] as u32),
            r.spec_kind() == IndexKind::U16,
            r.spec_gpu_address() == old(self).spec_next_address(),
            final(self).spec_handle() == old(self).spec_handle(),
            final(self).spec_next_address() == old(self).spec_next_address() + 1,
            final(self).wf(),
    {
        IndexBuffer::from_u16(self, data, options)
    }

    /// Creates an index buffer from 32-bit indices.
    pub fn index_buffer_from_u32(&mut self, data: &[u32], options: ResourceOptions) -> (r:
        IndexBuffer)
        requires
            old(self).wf(),
            old(self).spec_next_address() < u64::MAX,
        ensures
            r@.len() == data@.len(),
            forall|i: int| 0 <= i < data@.len() ==> r@[i] == Some(data@[i]),
            r.spec_kind() == IndexKind::U32,
            r.spec_gpu_address() == old(self).spec_next_address(),
            final(self).spec_handle() == old(self).spec_handle(),
            final(self).spec_next_address() == old(self).spec_next_address() + 1,
            final(self).wf(),
    {
        IndexBuffer::from_u32(self, data, options)
    }

    /// Creates a command queue with an empty event log.
    pub fn new_queue(&self) -> (r: Queue)
        ensures
            r.spec_log() == Seq::<QueueOp>::empty(),
            r.spec_committed().len() == 0,
    {
        Queue::fresh()
    }

    /// Creates a fresh command allocator, ready for its first command
    /// buffer.
    pub fn new_command_allocator(&self) -> (r: CommandAllocator)
        ensures
            r.spec_resets() == 0u64,
            r.spec_ready(),
    {
        CommandAllocator::fresh()
    }

    /// Creates an argument table with `max_buffers` buffer slots, all
    /// unbound, and `max_textures` texture slots.
    pub fn new_argument_table(&self, max_buffers: u32, max_textures: u32) -> (r: ArgumentTable)
        ensures
            r@.len() == max_buffers,
            forall|i: int| 0 <= i < r@.len() ==> r@[i] == 0u64,
            r.spec_max_textures() == max_textures,
    {
        ArgumentTable::with_capacity(max_buffers, max_textures)
    }
}

} // verus!
