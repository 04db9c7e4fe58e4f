//! The renderer: composes device, queue, allocator, pipeline, buffers and
//! argument table, and exposes one `draw_frame` entry point per update
//! tick.
//!
//! `draw_frame` runs the frame state machine: acquire target and drawable
//! (skipping the frame with no side effects when either is absent), write
//! the per-frame uniform element, bind the buffer addresses, reset the
//! allocator and open a command buffer, record one render pass with one
//! draw call (plain or instanced), then submit and present exactly once
//! through the scoped frame.

use vstd::prelude::*;
use crate::argument::ArgumentTable;
use crate::buffer::{HasGpuAddress, IndexBuffer, Uniform, Vertex};
use crate::command::{Command, CommandAllocator, CommandBuffer, Queue, QueueOp};
use crate::device::Device;
use crate::drawable::Drawable;
use crate::frame::RenderFrame;
use crate::pass::RenderPass;
use crate::pipeline::PipelineState;
use crate::swapchain::RenderSurface;
use crate::types::{ClearColor, LoadAction, PrimitiveType, RenderStages};

verus! {

/// The table slot the uniform buffer is bound at.
pub const UNIFORM_SLOT: u32 = 0;

/// The table slot the vertex buffer is bound at.
pub const VERTEX_SLOT: u32 = 1;

/// The table slot the index buffer is bound at, when one is set.
pub const INDEX_SLOT: u32 = 2;

/// The fixed background color every frame is cleared to: a dark gray,
/// carried as the bit patterns of the double-precision channel values
/// 0.1, 0.1, 0.12 and 1.0.
pub open spec fn spec_background_color() -> ClearColor {
    ClearColor {
        red_bits: 0x3FB9_9999_9999_999Au64,
        green_bits: 0x3FB9_9999_9999_999Au64,
        blue_bits: 0x3FBE_B851_EB85_1EB8u64,
        alpha_bits: 0x3FF0_0000_0000_0000u64,
    }
}

/// The fixed background color every frame is cleared to.
pub fn background_color() -> (r: ClearColor)
    ensures
        r == spec_background_color(),
{
    ClearColor {
        red_bits: 0x3FB9_9999_9999_999A,
        green_bits: 0x3FB9_9999_9999_999A,
        blue_bits: 0x3FBE_B851_EB85_1EB8,
        alpha_bits: 0x3FF0_0000_0000_0000,
    }
}

/// What a call to `draw_frame` did.
#[derive(Copy, Clone, Debug, PartialEq, Eq, Structural)]
pub enum FrameStatus {
    /// The frame was recorded, submitted and presented.
    Presented,
    /// The surface had no target or drawable this tick; nothing was done.
    Skipped,
}

/// The renderer: the one object calling code touches.
///
/// Generic over the uniform element type `U` (one element, overwritten
/// each frame) and the vertex element type `V`.
pub struct Renderer<U: Copy, V: Copy> {
    device: Device,
    queue: Queue,
    allocator: CommandAllocator,
    pipeline: PipelineState,
    argument_table: ArgumentTable,
    uniform: Uniform<U>,
    vertex: Vertex<V>,
    index: Option<IndexBuffer>,
    instance_count: usize,
    last_drawable: u64,
}

impl<U: Copy, V: Copy> Renderer<U, V> {
    /// The device, for use in specifications.
    pub closed spec fn spec_device(self) -> Device {
        self.device
    }

    /// The queue, for use in specifications.
    pub closed spec fn spec_queue(self) -> Queue {
        self.queue
    }

    /// The command allocator, for use in specifications.
    pub closed spec fn spec_allocator(self) -> CommandAllocator {
        self.allocator
    }

    /// The pipeline state, for use in specifications.
    pub closed spec fn spec_pipeline(self) -> PipelineState {
        self.pipeline
    }

    /// The argument table, for use in specifications.
    pub closed spec fn spec_table(self) -> ArgumentTable {
        self.argument_table
    }

    /// The uniform buffer, for use in specifications.
    pub closed spec fn spec_uniform(self) -> Uniform<U> {
        self.uniform
    }

    /// The vertex buffer, for use in specifications.
    pub closed spec fn spec_vertex(self) -> Vertex<V> {
        self.vertex
    }

    /// The index buffer, if one is set, for use in specifications.
    pub closed spec fn spec_index(self) -> Option<IndexBuffer> {
        self.index
    }

    /// The configured instance count, for use in specifications.
    pub closed spec fn spec_instance_count(self) -> usize {
        self.instance_count
    }

    /// The backend identifier of the drawable the last presented frame
    /// went to, zero while no frame has been presented, for use in
    /// specifications.
    pub closed spec fn spec_last_drawable(self) -> u64 {
        self.last_drawable
    }

    /// Well-formedness: the uniform buffer holds exactly one element and
    /// the argument table has the three slots the renderer binds.
    pub open spec fn wf(self) -> bool {
        &&& self.spec_uniform()@.len() == 1
        &&& self.spec_table()@.len() == 3
    }

    /// The argument table contents after the renderer binds its buffers:
    /// the uniform address at slot 0, the vertex address at slot 1, and
    /// the index address at slot 2 when an index buffer is set.
    pub open spec fn spec_bound_table(self) -> Seq<u64> {
        let bound = self.spec_table()@.update(
            UNIFORM_SLOT as int,
            self.spec_uniform().spec_gpu_address(),
        ).update(VERTEX_SLOT as int, self.spec_vertex().spec_gpu_address());
        match self.spec_index() {
            Some(ib) => bound.update(INDEX_SLOT as int, ib.spec_gpu_address()),
            None => bound,
        }
    }

    /// The commands one frame records: bind the pipeline, bind the
    /// argument table at the vertex stage, then one draw call — instanced
    /// exactly when the configured instance count exceeds one.
    pub open spec fn spec_frame_commands(self) -> Seq<Command> {
        seq![
            Command::SetPipeline {
                color_format: self.spec_pipeline().spec_color_format(),
                blending: self.spec_pipeline().spec_blending(),
            },
            Command::SetArgumentTable { stages: RenderStages::Vertex },
            if self.spec_instance_count() > 1 {
                Command::DrawInstanced {
                    primitive: PrimitiveType::Triangle,
                    start: 0usize,
                    count: self.spec_vertex()@.len() as usize,
                    instances: self.spec_instance_count(),
                }
            } else {
                Command::Draw {
                    primitive: PrimitiveType::Triangle,
                    start: 0usize,
                    count: self.spec_vertex()@.len() as usize,
                }
            },
        ]
    }

    /// Law: every frame records exactly three commands — bind the
    /// pipeline, bind the argument table, then a single draw call over the
    /// whole vertex buffer.  The draw is instanced, with the configured
    /// instance count, exactly when that count exceeds one; it is never
    /// split into repeated plain draws.
    pub proof fn lemma_frame_records_one_draw(self)
        ensures
            self.spec_frame_commands().len() == 3,
            self.spec_frame_commands()[0] == (Command::SetPipeline {
                color_format: self.spec_pipeline().spec_color_format(),
                blending: self.spec_pipeline().spec_blending(),
            }),
            self.spec_frame_commands()[1] == (Command::SetArgumentTable {
                stages: RenderStages::Vertex,
            }),
            self.spec_instance_count() > 1 ==> self.spec_frame_commands()[2]
                == (Command::DrawInstanced {
                primitive: PrimitiveType::Triangle,
                start: 0usize,
                count: self.spec_vertex()@.len() as usize,
                instances: self.spec_instance_count(),
            }),
            self.spec_instance_count() <= 1 ==> self.spec_frame_commands()[2] == (Command::Draw {
                primitive: PrimitiveType::Triangle,
                start: 0usize,
                count: self.spec_vertex()@.len() as usize,
            }),
    {
    }

    /// Composes a renderer from a device, a built pipeline state and a
    /// vertex buffer, creating the queue, the allocator, the three-slot
    /// argument table and the one-element uniform buffer.
    pub fn new(device: Device, pipeline: PipelineState, vertex: Vertex<V>) -> (r: Renderer<U, V>)
        requires
            device.wf(),
            device.spec_next_address() < u64::MAX,
        ensures
            r.wf(),
            r.spec_pipeline() == pipeline,
            r.spec_vertex() == vertex,
            r.spec_index() is None,
            r.spec_instance_count() == 1,
            r.spec_uniform()@ =~= seq![Option::<U>::None],
            r.spec_uniform().spec_gpu_address() == device.spec_next_address(),
            forall|i: int| 0 <= i < 3 ==> r.spec_table()@[i] == 0u64,
            r.spec_table().spec_max_textures() == 0u32,
            r.spec_queue().spec_log() == Seq::<QueueOp>::empty(),
            r.spec_queue().spec_committed().len() == 0,
            r.spec_allocator().spec_resets() == 0u64,
            r.spec_allocator().spec_ready(),
            r.spec_device().spec_handle() == device.spec_handle(),
            r.spec_device().spec_next_address() == device.spec_next_address() + 1,
            r.spec_device().wf(),
            r.spec_last_drawable() == 0u64,
    {
        let mut device = device;
        let queue = device.new_queue();
        let allocator = device.new_command_allocator();
        let argument_table = device.new_argument_table(3, 0);
        let uniform: Uniform<U> = device.uniform_buffer_with_len(
            1,
            crate::types::ResourceOptions::CpuCacheModeDefaultCache,
        );
        Renderer {
            device,
            queue,
            allocator,
            pipeline,
            argument_table,
            uniform,
            vertex,
            index: None,
            instance_count: 1,
            last_drawable: 0,
        }
    }

    /// Sets the instance count used by the next frames' draw call.  A
    /// count above one makes `draw_frame` record one instanced draw.
    pub fn set_instance_count(&mut self, n: usize)
        ensures
            final(self).spec_instance_count() == n,
            final(self).spec_device() == old(self).spec_device(),
            final(self).spec_queue() == old(self).spec_queue(),
            final(self).spec_allocator() == old(self).spec_allocator(),
            final(self).spec_pipeline() == old(self).spec_pipeline(),
            final(self).spec_table() == old(self).spec_table(),
            final(self).spec_uniform() == old(self).spec_uniform(),
            final(self).spec_vertex() == old(self).spec_vertex(),
            final(self).spec_index() == old(self).spec_index(),
            final(self).spec_last_drawable() == old(self).spec_last_drawable(),
    {
        self.instance_count = n;
    }

    /// Sets the index buffer bound at slot 2 from the next frame on.
    pub fn set_index_buffer(&mut self, ib: IndexBuffer)
        ensures
            final(self).spec_index() == Some(ib),
            final(self).spec_device() == old(self).spec_device(),
            final(self).spec_queue() == old(self).spec_queue(),
            final(self).spec_allocator() == old(self).spec_allocator(),
            final(self).spec_pipeline() == old(self).spec_pipeline(),
            final(self).spec_table() == old(self).spec_table(),
            final(self).spec_uniform() == old(self).spec_uniform(),
            final(self).spec_vertex() == old(self).spec_vertex(),
            final(self).spec_instance_count() == old(self).spec_instance_count(),
            final(self).spec_last_drawable() == old(self).spec_last_drawable(),
    {
        self.index = Some(ib);
    }

    /// Begins a frame from the given acquisition results: only if both a
    /// render-pass target and a drawable are there, resets the allocator,
    /// opens a command buffer against it, and configures the pass to clear
    /// to the fixed background color.  Returns a frame exactly when both
    /// were there; otherwise the renderer is left untouched.
    pub fn begin_frame_with(&mut self, target: Option<RenderPass>, drawable: Option<Drawable>)
        -> (r: Option<RenderFrame>)
        requires
            old(self).wf(),
            old(self).spec_allocator().spec_resets() < u64::MAX,
        ensures
            final(self).wf(),
            r is Some <==> target is Some && drawable is Some,
            r is None ==> *final(self) == *old(self),
            r matches Some(f) ==> ({
                &&& !f.spec_ended()
                &&& f.spec_commands() == Seq::<Command>::empty()
                &&& f.spec_drawable() == drawable.unwrap()
                &&& f.spec_pass().spec_clear_color() == spec_background_color()
                &&& f.spec_pass().spec_load_action() == LoadAction::Clear
                &&& final(self).spec_allocator().spec_resets() == old(
                    self,
                ).spec_allocator().spec_resets() + 1
                &&& !final(self).spec_allocator().spec_ready()
                &&& final(self).spec_device() == old(self).spec_device()
                &&& final(self).spec_queue() == old(self).spec_queue()
                &&& final(self).spec_pipeline() == old(self).spec_pipeline()
                &&& final(self).spec_table() == old(self).spec_table()
                &&& final(self).spec_uniform() == old(self).spec_uniform()
                &&& final(self).spec_vertex() == old(self).spec_vertex()
                &&& final(self).spec_index() == old(self).spec_index()
                &&& final(self).spec_instance_count() == old(self).spec_instance_count()
                &&& final(self).spec_last_drawable() == old(self).spec_last_drawable()
            }),
    {
        let mut rp: RenderPass = match target {
            Some(rp) => rp,
            None => {
                return None;
            },
        };
        let drawable = match drawable {
            Some(d) => d,
            None => {
                return None;
            },
        };
        self.allocator.reset();
        let cmd: CommandBuffer = CommandBuffer::begin_with_allocator(
            &self.device,
            &mut self.allocator,
        ).unwrap();
        rp.set_clear(background_color(), LoadAction::Clear);
        Some(RenderFrame::assemble(cmd, rp, drawable))
    }

    /// Begins a frame: acquires the render-pass target and the drawable
    /// from the surface, and hands them to [`Self::begin_frame_with`].
    /// The drawable is not asked for when there is no target.
    pub fn begin_frame<S: RenderSurface>(&mut self, surface: &mut S) -> (r: Option<RenderFrame>)
        requires
            old(self).wf(),
            old(self).spec_allocator().spec_resets() < u64::MAX,
        ensures
            final(self).wf(),
            r is None ==> *final(self) == *old(self),
            r matches Some(f) ==> ({
                &&& !f.spec_ended()
                &&& f.spec_commands() == Seq::<Command>::empty()
                &&& f.spec_pass().spec_clear_color() == spec_background_color()
                &&& f.spec_pass().spec_load_action() == LoadAction::Clear
                &&& final(self).spec_allocator().spec_resets() == old(
                    self,
                ).spec_allocator().spec_resets() + 1
                &&& !final(self).spec_allocator().spec_ready()
                &&& final(self).spec_device() == old(self).spec_device()
                &&& final(self).spec_queue() == old(self).spec_queue()
                &&& final(self).spec_pipeline() == old(self).spec_pipeline()
                &&& final(self).spec_table() == old(self).spec_table()
                &&& final(self).spec_uniform() == old(self).spec_uniform()
                &&& final(self).spec_vertex() == old(self).spec_vertex()
                &&& final(self).spec_index() == old(self).spec_index()
                &&& final(self).spec_instance_count() == old(self).spec_instance_count()
                &&& final(self).spec_last_drawable() == old(self).spec_last_drawable()
            }),
    {
        let target = surface.current_render_pass_target();
        let drawable = if target.is_some() {
            surface.current_drawable()
        } else {
            None
        };
        self.begin_frame_with(target, drawable)
    }

    /// Draws one frame from the given acquisition results.
    ///
    /// The frame is presented exactly when both a render-pass target and a
    /// drawable are there.  Without both, the renderer is left exactly as
    /// it was: no uniform write, no binding, no allocator reset, no
    /// submission, no presentation.  With both, the renderer writes
    /// `scene` into the uniform buffer's element 0, binds the buffer
    /// addresses, records one render pass with one draw call, and submits
    /// and presents exactly once: the queue log grows by exactly the four
    /// events wait, commit, signal, present — in that order, all on the
    /// given drawable — and exactly one command buffer, holding exactly
    /// the frame's three commands, is committed.
    pub fn draw_frame_with(
        &mut self,
        target: Option<RenderPass>,
        drawable: Option<Drawable>,
        scene: U,
    ) -> (r: FrameStatus)
        requires
            old(self).wf(),
            old(self).spec_allocator().spec_resets() < u64::MAX,
        ensures
            final(self).wf(),
            r == FrameStatus::Presented <==> target is Some && drawable is Some,
            r == FrameStatus::Skipped ==> *final(self) == *old(self),
            r == FrameStatus::Presented ==> ({
                &&& final(self).spec_uniform()@ == seq![Some(scene)]
                &&& final(self).spec_uniform().spec_gpu_address() == old(
                    self,
                ).spec_uniform().spec_gpu_address()
                &&& final(self).spec_table()@ == old(self).spec_bound_table()
                &&& final(self).spec_allocator().spec_resets() == old(
                    self,
                ).spec_allocator().spec_resets() + 1
                &&& final(self).spec_last_drawable() == drawable.unwrap().spec_id()
                &&& final(self).spec_queue().spec_log() == old(self).spec_queue().spec_log()
                    + seq![
                    QueueOp::WaitDrawable { drawable: drawable.unwrap().spec_id() },
                    QueueOp::Commit {
                        which: old(self).spec_queue().spec_committed().len() as usize,
                    },
                    QueueOp::SignalDrawable { drawable: drawable.unwrap().spec_id() },
                    QueueOp::Present { drawable: drawable.unwrap().spec_id() },
                ]
                &&& final(self).spec_queue().spec_committed().len() == old(
                    self,
                ).spec_queue().spec_committed().len() + 1
                &&& final(self).spec_queue().spec_committed().take(
                    old(self).spec_queue().spec_committed().len() as int,
                ) == old(self).spec_queue().spec_committed()
                &&& final(self).spec_queue().spec_committed().last().spec_ended()
                &&& final(self).spec_queue().spec_committed().last().spec_commands() == old(
                    self,
                ).spec_frame_commands()
                &&& final(self).spec_device() == old(self).spec_device()
                &&& final(self).spec_pipeline() == old(self).spec_pipeline()
                &&& final(self).spec_vertex() == old(self).spec_vertex()
                &&& final(self).spec_index() == old(self).spec_index()
                &&& final(self).spec_instance_count() == old(self).spec_instance_count()
            }),
    {
        if target.is_none() || drawable.is_none() {
            return FrameStatus::Skipped;
        }
        match self.uniform.write_one(0, &scene) {
            Ok(()) => {},
            // A one-element buffer accepts index 0, so the write cannot
            // fail.
            Err(_) => {
                return unreached();
            },
        }
        self.argument_table.bind2(UNIFORM_SLOT, &self.uniform, VERTEX_SLOT, &self.vertex);
        if let Some(ib) = &self.index {
            self.argument_table.bind(INDEX_SLOT, ib);
        }
        let mut frame: RenderFrame = self.begin_frame_with(target, drawable).unwrap();
        let mut enc = frame.encoder().unwrap();
        enc.set_pipeline(&self.pipeline);
        enc.set_argument_table_at_stages(&self.argument_table, RenderStages::Vertex);
        let vcount = self.vertex.len();
        if self.instance_count > 1 {
            enc.draw_primitives_instanced(PrimitiveType::Triangle, 0, vcount, self.instance_count);
        } else {
            enc.draw_primitives(PrimitiveType::Triangle, 0, vcount);
        }
        frame.end_encoding(enc);
        frame.end();
        let presented = frame.finish(&mut self.queue);
        self.last_drawable = presented.id();
        proof {
            assert(self.spec_uniform()@ =~= seq![Some(scene)]);
            assert(self.spec_queue().spec_committed().last().spec_commands() =~= old(
                self,
            ).spec_frame_commands());
        }
        FrameStatus::Presented
    }

    /// Draws one frame: acquires the render-pass target and the drawable
    /// from the surface, and hands them to [`Self::draw_frame_with`].
    /// The drawable is not asked for when there is no target.
    ///
    /// A tick on which the surface has no target or drawable is a normal,
    /// silent skip, not an error; the next tick tries again.
    pub fn draw_frame<S: RenderSurface>(&mut self, surface: &mut S, scene: U) -> (r: FrameStatus)
        requires
            old(self).wf(),
            old(self).spec_allocator().spec_resets() < u64::MAX,
        ensures
            final(self).wf(),
            r == FrameStatus::Skipped ==> *final(self) == *old(self),
            r == FrameStatus::Presented ==> ({
                &&& final(self).spec_uniform()@ == seq![Some(scene)]
                &&& final(self).spec_uniform().spec_gpu_address() == old(
                    self,
                ).spec_uniform().spec_gpu_address()
                &&& final(self).spec_table()@ == old(self).spec_bound_table()
                &&& final(self).spec_allocator().spec_resets() == old(
                    self,
                ).spec_allocator().spec_resets() + 1
                &&& final(self).spec_queue().spec_log() == old(self).spec_queue().spec_log()
                    + seq![
                    QueueOp::WaitDrawable { drawable: final(self).spec_last_drawable() },
                    QueueOp::Commit {
                        which: old(self).spec_queue().spec_committed().len() as usize,
                    },
                    QueueOp::SignalDrawable { drawable: final(self).spec_last_drawable() },
                    QueueOp::Present { drawable: final(self).spec_last_drawable() },
                ]
                &&& final(self).spec_queue().spec_committed().len() == old(
                    self,
                ).spec_queue().spec_committed().len() + 1
                &&& final(self).spec_queue().spec_committed().take(
                    old(self).spec_queue().spec_committed().len() as int,
                ) == old(self).spec_queue().spec_committed()
                &&& final(self).spec_queue().spec_committed().last().spec_ended()
                &&& final(self).spec_queue().spec_committed().last().spec_commands() == old(
                    self,
                ).spec_frame_commands()
                &&& final(self).spec_device() == old(self).spec_device()
                &&& final(self).spec_pipeline() == old(self).spec_pipeline()
                &&& final(self).spec_vertex() == old(self).spec_vertex()
                &&& final(self).spec_index() == old(self).spec_index()
                &&& final(self).spec_instance_count() == old(self).spec_instance_count()
            }),
    {
        let target = surface.current_render_pass_target();
        let drawable = if target.is_some() {
            surface.current_drawable()
        } else {
            None
        };
        self.draw_frame_with(target, drawable, scene)
    }

    /// The device.
    pub fn device(&self) -> (r: &Device)
        ensures
            *r == self.spec_device(),
    {
        &self.device
    }

    /// The queue, with its log of submission-phase events.
    pub fn queue(&self) -> (r: &Queue)
        ensures
            *r == self.spec_queue(),
    {
        &self.queue
    }

    /// The command allocator, with its reset count.
    pub fn allocator(&self) -> (r: &CommandAllocator)
        ensures
            *r == self.spec_allocator(),
    {
        &self.allocator
    }

    /// The pipeline state.
    pub fn pipeline(&self) -> (r: &PipelineState)
        ensures
            *r == self.spec_pipeline(),
    {
        &self.pipeline
    }

    /// The argument table.
    pub fn argument_table(&self) -> (r: &ArgumentTable)
        ensures
            *r == self.spec_table(),
    {
        &self.argument_table
    }

    /// The uniform buffer.
    pub fn uniform(&self) -> (r: &Uniform<U>)
        ensures
            *r == self.spec_uniform(),
    {
        &self.uniform
    }

    /// The vertex buffer.
    pub fn vertex_buffer(&self) -> (r: &Vertex<V>)
        ensures
            *r == self.spec_vertex(),
    {
        &self.vertex
    }

    /// The index buffer, if one is set.
    pub fn index_buffer(&self) -> (r: &Option<IndexBuffer>)
        ensures
            *r == self.spec_index(),
    {
        &self.index
    }

    /// The configured instance count.
    pub fn instance_count(&self) -> (r: usize)
        ensures
            r == self.spec_instance_count(),
    {
        self.instance_count
    }

    /// The backend identifier of the drawable the last presented frame
    /// went to; zero while no frame has been presented.
    pub fn last_drawable(&self) -> (r: u64)
        ensures
            r == self.spec_last_drawable(),
    {
        self.last_drawable
    }
}

} // verus!
