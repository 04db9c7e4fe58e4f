//! The per-frame recording chain: command allocator, command buffer,
//! render encoder, and the queue that serializes submission.
//!
//! A command allocator is per-frame scratch space that must be reset before
//! a new command buffer is opened against it.  A command buffer is the unit
//! of one frame's recorded work; a render encoder records pipeline binding,
//! argument-table binding and draw calls into it.  The queue keeps an
//! ordered log of every submission-phase event — drawable wait, commit,
//! drawable signal, present — together with each committed command buffer,
//! so the exactly-once submission discipline is visible in its state.

use vstd::prelude::*;
use crate::argument::ArgumentTable;
use crate::device::Device;
use crate::drawable::Drawable;
use crate::pass::RenderPass;
use crate::pipeline::PipelineState;
use crate::types::{DeviceHandle, PixelFormat, PrimitiveType, RenderStages};

verus! {

/// One recorded command of a render pass.
#[derive(Copy, Clone, Debug, PartialEq, Eq, Structural)]
pub enum Command {
    /// Bind the pipeline state with this fixed-function configuration.
    SetPipeline {
        /// The pipeline's target color pixel format.
        color_format: PixelFormat,
        /// Whether the pipeline blends.
        blending: bool,
    },
    /// Make the argument table visible to these shader stages.
    SetArgumentTable {
        /// The stages the table is bound at.
        stages: RenderStages,
    },
    /// A plain draw call.
    Draw {
        /// The primitive topology.
        primitive: PrimitiveType,
        /// The first vertex.
        start: usize,
        /// The number of vertices.
        count: usize,
    },
    /// An instanced draw call.
    DrawInstanced {
        /// The primitive topology.
        primitive: PrimitiveType,
        /// The first vertex.
        start: usize,
        /// The number of vertices.
        count: usize,
        /// The number of instances.
        instances: usize,
    },
}

/// One submission-phase event recorded by the queue.
#[derive(Copy, Clone, Debug, PartialEq, Eq, Structural)]
pub enum QueueOp {
    /// The queue waited for a drawable to become available.
    WaitDrawable {
        /// The drawable's backend identifier.
        drawable: u64,
    },
    /// The queue committed one command buffer; `which` indexes the queue's
    /// committed buffers.
    Commit {
        /// The position of the buffer among the queue's committed buffers.
        which: usize,
    },
    /// The queue signalled a drawable as rendered.
    SignalDrawable {
        /// The drawable's backend identifier.
        drawable: u64,
    },
    /// A drawable was presented.
    Present {
        /// The drawable's backend identifier.
        drawable: u64,
    },
}

/// Recyclable per-frame scratch space for command recording.
///
/// The allocator must be reset between the command buffers opened against
/// it; a fresh allocator is ready for its first one.
pub struct CommandAllocator {
    resets: u64,
    opened_since_reset: bool,
}

impl CommandAllocator {
    /// How often the allocator has been reset, for use in specifications.
    pub closed spec fn spec_resets(self) -> u64 {
        self.resets
    }

    /// Whether a command buffer may be opened against the allocator, for
    /// use in specifications.
    pub closed spec fn spec_ready(self) -> bool {
        !self.opened_since_reset
    }

    /// A fresh allocator: never reset, ready for its first command buffer.
    pub(crate) fn fresh() -> (r: CommandAllocator)
        ensures
            r.spec_resets() == 0u64,
            r.spec_ready(),
    {
        CommandAllocator { resets: 0, opened_since_reset: false }
    }

    /// Resets the allocator, invalidating the prior frame's recorded and
    /// already submitted commands and making the allocator ready for a new
    /// command buffer.
    pub fn reset(&mut self)
        requires
            old(self).spec_resets() < u64::MAX,
        ensures
            final(self).spec_resets() == old(self).spec_resets() + 1,
            final(self).spec_ready(),
    {
        self.resets = self.resets + 1;
        self.opened_since_reset = false;
    }

    /// How often the allocator has been reset.
    pub fn reset_count(&self) -> (r: u64)
        ensures
            r == self.spec_resets(),
    {
        self.resets
    }

    /// Whether a command buffer may be opened against the allocator.
    pub fn ready(&self) -> (r: bool)
        ensures
            r == self.spec_ready(),
    {
        !self.opened_since_reset
    }

    /// Marks the allocator as backing an open command buffer.
    pub(crate) fn mark_opened(&mut self)
        ensures
            final(self).spec_resets() == old(self).spec_resets(),
            !final(self).spec_ready(),
    {
        self.opened_since_reset = true;
    }
}

/// The unit of one frame's recorded work, opened against a device and an
/// allocator.
pub struct CommandBuffer {
    device: DeviceHandle,
    ended: bool,
    commands: Vec<Command>,
}

impl CommandBuffer {
    /// The device the buffer was opened against, for use in specifications.
    pub closed spec fn spec_device(self) -> DeviceHandle {
        self.device
    }

    /// Whether recording has been closed, for use in specifications.
    pub closed spec fn spec_ended(self) -> bool {
        self.ended
    }

    /// The commands recorded so far, for use in specifications.
    pub closed spec fn spec_commands(self) -> Seq<Command> {
        self.commands@
    }

    /// Opens a new, empty command buffer against `device` and `allocator`.
    ///
    /// The allocator must be ready: reset since the last command buffer was
    /// opened against it, or never opened against.
    pub fn begin_with_allocator(device: &Device, allocator: &mut CommandAllocator) -> (r: Option<
        CommandBuffer,
    >)
        requires
            old(allocator).spec_ready(),
        ensures
            r matches Some(cb) && {
                &&& cb.spec_device() == device.spec_handle()
                &&& !cb.spec_ended()
                &&& cb.spec_commands() == Seq::<Command>::empty()
            },
            final(allocator).spec_resets() == old(allocator).spec_resets(),
            !final(allocator).spec_ready(),
    {
        allocator.mark_opened();
        Some(CommandBuffer { device: device.handle(), ended: false, commands: Vec::new() })
    }

    /// Closes recording.  Recording can be closed only once; the scoped
    /// frame wrapper guards this with its idempotent `end`.
    pub fn end(&mut self)
        requires
            !old(self).spec_ended(),
        ensures
            final(self).spec_ended(),
            final(self).spec_device() == old(self).spec_device(),
            final(self).spec_commands() == old(self).spec_commands(),
    {
        self.ended = true;
    }

    /// Yields a render encoder for one render pass of this buffer.
    pub fn render_encoder(&self, rp: &RenderPass) -> (r: Option<RenderEncoder>)
        requires
            !self.spec_ended(),
        ensures
            r matches Some(enc) && {
                &&& enc.spec_pass() == *rp
                &&& enc.spec_ops() == Seq::<Command>::empty()
            },
    {
        Some(RenderEncoder { pass: *rp, ops: Vec::new() })
    }

    /// Appends one finished render pass's recorded commands.
    pub(crate) fn record(&mut self, encoder: RenderEncoder)
        requires
            !old(self).spec_ended(),
        ensures
            !final(self).spec_ended(),
            final(self).spec_device() == old(self).spec_device(),
            final(self).spec_commands() == old(self).spec_commands() + encoder.spec_ops(),
    {
        let RenderEncoder { pass: _, mut ops } = encoder;
        self.commands.append(&mut ops);
    }

    /// Whether recording has been closed.
    pub fn has_ended(&self) -> (r: bool)
        ensures
            r == self.spec_ended(),
    {
        self.ended
    }

    /// The device the buffer was opened against.
    pub fn device(&self) -> (r: DeviceHandle)
        ensures
            r == self.spec_device(),
    {
        self.device
    }

    /// The commands recorded so far.
    pub fn commands(&self) -> (r: &Vec<Command>)
        ensures
            r@ == self.spec_commands(),
    {
        &self.commands
    }
}

/// Records one render pass's pipeline binding, argument-table binding and
/// draw calls.
pub struct RenderEncoder {
    pass: RenderPass,
    ops: Vec<Command>,
}

impl RenderEncoder {
    /// The render pass the encoder records for, for use in specifications.
    pub closed spec fn spec_pass(self) -> RenderPass {
        self.pass
    }

    /// The commands recorded so far, for use in specifications.
    pub closed spec fn spec_ops(self) -> Seq<Command> {
        self.ops@
    }

    /// Binds the pipeline state.
    pub fn set_pipeline(&mut self, pso: &PipelineState)
        ensures
            final(self).spec_pass() == old(self).spec_pass(),
            final(self).spec_ops() == old(self).spec_ops().push(
                Command::SetPipeline {
                    color_format: pso.spec_color_format(),
                    blending: pso.spec_blending(),
                },
            ),
    {
        self.ops.push(
            Command::SetPipeline { color_format: pso.color_format(), blending: pso.blending() },
        );
    }

    /// Makes the argument table visible to the given shader stages.
    pub fn set_argument_table_at_stages(&mut self, _table: &ArgumentTable, stages: RenderStages)
        ensures
            final(self).spec_pass() == old(self).spec_pass(),
            final(self).spec_ops() == old(self).spec_ops().push(
                Command::SetArgumentTable { stages },
            ),
    {
        self.ops.push(Command::SetArgumentTable { stages });
    }

    /// Records a plain draw call.
    pub fn draw_primitives(&mut self, prim: PrimitiveType, start: usize, count: usize)
        ensures
            final(self).spec_pass() == old(self).spec_pass(),
            final(self).spec_ops() == old(self).spec_ops().push(
                Command::Draw { primitive: prim, start, count },
            ),
    {
        self.ops.push(Command::Draw { primitive: prim, start, count });
    }

    /// Records an instanced draw call.
    pub fn draw_primitives_instanced(
        &mut self,
        prim: PrimitiveType,
        start: usize,
        count: usize,
        instances: usize,
    )
        ensures
            final(self).spec_pass() == old(self).spec_pass(),
            final(self).spec_ops() == old(self).spec_ops().push(
                Command::DrawInstanced { primitive: prim, start, count, instances },
            ),
    {
        self.ops.push(Command::DrawInstanced { primitive: prim, start, count, instances });
    }
}

/// The queue: serializes submission, drawable wait/signal and presentation,
/// and keeps the ordered log of those events.
pub struct Queue {
    log: Vec<QueueOp>,
    committed: Vec<CommandBuffer>,
}

impl Queue {
    /// The ordered log of submission-phase events, for use in
    /// specifications.
    pub closed spec fn spec_log(self) -> Seq<QueueOp> {
        self.log@
    }

    /// The command buffers committed so far, in order, for use in
    /// specifications.
    pub closed spec fn spec_committed(self) -> Seq<CommandBuffer> {
        self.committed@
    }

    /// A fresh queue with an empty log.
    pub(crate) fn fresh() -> (r: Queue)
        ensures
            r.spec_log() == Seq::<QueueOp>::empty(),
            r.spec_committed() == Seq::<CommandBuffer>::empty(),
    {
        Queue { log: Vec::new(), committed: Vec::new() }
    }

    /// Waits until `drawable` is available for rendering.
    pub fn wait_for_drawable(&mut self, drawable: &Drawable)
        ensures
            final(self).spec_log() == old(self).spec_log().push(
                QueueOp::WaitDrawable { drawable: drawable.spec_id() },
            ),
            final(self).spec_committed() == old(self).spec_committed(),
    {
        let id = drawable.id();
        self.log.push(QueueOp::WaitDrawable { drawable: id });
    }

    /// Commits one command buffer, which must have ended recording.  The
    /// queue takes ownership of the submitted buffer.
    pub fn commit_one(&mut self, cmd: CommandBuffer)
        requires
            cmd.spec_ended(),
        ensures
            final(self).spec_committed() == old(self).spec_committed().push(cmd),
            final(self).spec_log() == old(self).spec_log().push(
                QueueOp::Commit { which: old(self).spec_committed().len() as usize },
            ),
    {
        let which = self.committed.len();
        self.committed.push(cmd);
        self.log.push(QueueOp::Commit { which });
    }

    /// Signals `drawable` as rendered.
    pub fn signal_drawable(&mut self, drawable: &Drawable)
        ensures
            final(self).spec_log() == old(self).spec_log().push(
                QueueOp::SignalDrawable { drawable: drawable.spec_id() },
            ),
            final(self).spec_committed() == old(self).spec_committed(),
    {
        let id = drawable.id();
        self.log.push(QueueOp::SignalDrawable { drawable: id });
    }

    /// Presents `drawable` and records the presentation.
    pub fn present_drawable(&mut self, drawable: &mut Drawable)
        ensures
            final(self).spec_log() == old(self).spec_log().push(
                QueueOp::Present { drawable: old(drawable).spec_id() },
            ),
            final(self).spec_committed() == old(self).spec_committed(),
            final(drawable).spec_id() == old(drawable).spec_id(),
            final(drawable).spec_presented(),
    {
        let id = drawable.id();
        drawable.present();
        self.log.push(QueueOp::Present { drawable: id });
    }

    /// The ordered log of submission-phase events.
    pub fn log(&self) -> (r: &Vec<QueueOp>)
        ensures
            r@ == self.spec_log(),
    {
        &self.log
    }

    /// The command buffers committed so far, in order.
    pub fn committed(&self) -> (r: &Vec<CommandBuffer>)
        ensures
            r@ == self.spec_committed(),
    {
        &self.committed
    }

    /// How many command buffers have been committed.
    pub fn commit_count(&self) -> (r: usize)
        ensures
            r == self.spec_committed().len(),
    {
        self.committed.len()
    }
}

} // verus!
