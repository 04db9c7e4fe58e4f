//! The scoped frame: owner of one command buffer, one render-pass target
//! and one drawable for exactly one frame.
//!
//! Closing the recording (`end`) is idempotent; `finish` consumes the frame
//! and performs the whole submission phase — wait on the drawable, commit
//! the one command buffer, signal the drawable, present — exactly once, in
//! that order.  A finished frame no longer exists, so it can neither be
//! submitted again nor presented twice.

use vstd::prelude::*;
use crate::command::{Command, CommandBuffer, Queue, QueueOp, RenderEncoder};
use crate::drawable::Drawable;
use crate::pass::RenderPass;
use crate::types::{ClearColor, LoadAction};

verus! {

/// One frame's command buffer, render-pass target and drawable, tied
/// together until the frame is finished.
#[must_use]
pub struct RenderFrame {
    cmd: CommandBuffer,
    rp: RenderPass,
    drawable: Drawable,
}

impl RenderFrame {
    /// Ties one command buffer, one pass target and one drawable into a
    /// frame.
    pub(crate) fn assemble(cmd: CommandBuffer, rp: RenderPass, drawable: Drawable) -> (r:
        RenderFrame)
        ensures
            r.spec_ended() == cmd.spec_ended(),
            r.spec_commands() == cmd.spec_commands(),
            r.spec_pass() == rp,
            r.spec_drawable() == drawable,
    {
        RenderFrame { cmd, rp, drawable }
    }

    /// Whether recording has been closed, for use in specifications.
    pub closed spec fn spec_ended(self) -> bool {
        self.cmd.spec_ended()
    }

    /// The commands recorded so far, for use in specifications.
    pub closed spec fn spec_commands(self) -> Seq<Command> {
        self.cmd.spec_commands()
    }

    /// The frame's render-pass target, for use in specifications.
    pub closed spec fn spec_pass(self) -> RenderPass {
        self.rp
    }

    /// The frame's drawable, for use in specifications.
    pub closed spec fn spec_drawable(self) -> Drawable {
        self.drawable
    }

    /// The frame's render-pass target.
    pub fn pass(&self) -> (r: RenderPass)
        ensures
            r == self.spec_pass(),
    {
        self.rp
    }

    /// The frame's drawable.
    pub fn drawable(&self) -> (r: Drawable)
        ensures
            r == self.spec_drawable(),
    {
        self.drawable
    }

    /// Whether recording has been closed.
    pub fn is_ended(&self) -> (r: bool)
        ensures
            r == self.spec_ended(),
    {
        self.cmd.has_ended()
    }

    /// The commands recorded so far.
    pub fn commands(&self) -> (r: &Vec<Command>)
        ensures
            r@ == self.spec_commands(),
    {
        self.cmd.commands()
    }

    /// Overrides the pass's clear color and load action.
    pub fn set_clear(&mut self, color: ClearColor, load: LoadAction)
        ensures
            final(self).spec_pass().spec_clear_color() == color,
            final(self).spec_pass().spec_load_action() == load,
            final(self).spec_ended() == old(self).spec_ended(),
            final(self).spec_commands() == old(self).spec_commands(),
            final(self).spec_drawable() == old(self).spec_drawable(),
    {
        self.rp.set_clear(color, load);
    }

    /// Yields a render encoder for one render pass of this frame.
    pub fn encoder(&self) -> (r: Option<RenderEncoder>)
        requires
            !self.spec_ended(),
        ensures
            r matches Some(enc) && {
                &&& enc.spec_pass() == self.spec_pass()
                &&& enc.spec_ops() == Seq::<Command>::empty()
            },
    {
        self.cmd.render_encoder(&self.rp)
    }

    /// Ends one render pass's encoding, recording its commands into the
    /// frame's command buffer.
    pub fn end_encoding(&mut self, encoder: RenderEncoder)
        requires
            !old(self).spec_ended(),
        ensures
            !final(self).spec_ended(),
            final(self).spec_commands() == old(self).spec_commands() + encoder.spec_ops(),
            final(self).spec_pass() == old(self).spec_pass(),
            final(self).spec_drawable() == old(self).spec_drawable(),
    {
        self.cmd.record(encoder);
    }

    /// Closes command recording.  Idempotent: ending an already ended frame
    /// changes nothing.
    pub fn end(&mut self)
        ensures
            final(self).spec_ended(),
            final(self).spec_commands() == old(self).spec_commands(),
            final(self).spec_pass() == old(self).spec_pass(),
            final(self).spec_drawable() == old(self).spec_drawable(),
            old(self).spec_ended() ==> *final(self) == *old(self),
    {
        if !self.cmd.has_ended() {
            self.cmd.end();
        }
    }

    /// Finishes the frame: closes recording if still open, then has the
    /// queue wait on the drawable, commits the one command buffer, signals
    /// the drawable, and presents it — exactly once, in that order.
    ///
    /// Returns the presented drawable.
    pub fn finish(self, queue: &mut Queue) -> (d: Drawable)
        ensures
            final(queue).spec_log() == old(queue).spec_log() + seq![
                QueueOp::WaitDrawable { drawable: self.spec_drawable().spec_id() },
                QueueOp::Commit { which: old(queue).spec_committed().len() as usize },
                QueueOp::SignalDrawable { drawable: self.spec_drawable().spec_id() },
                QueueOp::Present { drawable: self.spec_drawable().spec_id() },
            ],
            final(queue).spec_committed().len() == old(queue).spec_committed().len() + 1,
            final(queue).spec_committed().take(old(queue).spec_committed().len() as int) == old(
                queue,
            ).spec_committed(),
            final(queue).spec_committed().last().spec_ended(),
            final(queue).spec_committed().last().spec_commands() == self.spec_commands(),
            d.spec_id() == self.spec_drawable().spec_id(),
            d.spec_presented(),
    {
        let RenderFrame { mut cmd, rp: _, mut drawable } = self;
        if !cmd.has_ended() {
            cmd.end();
        }
        queue.wait_for_drawable(&drawable);
        queue.commit_one(cmd);
        queue.signal_drawable(&drawable);
        queue.present_drawable(&mut drawable);
        proof {
            assert(queue.spec_log() =~= old(queue).spec_log() + seq![
                QueueOp::WaitDrawable { drawable: self.spec_drawable().spec_id() },
                QueueOp::Commit { which: old(queue).spec_committed().len() as usize },
                QueueOp::SignalDrawable { drawable: self.spec_drawable().spec_id() },
                QueueOp::Present { drawable: self.spec_drawable().spec_id() },
            ]);
            assert(queue.spec_committed().take(old(queue).spec_committed().len() as int)
                =~= old(queue).spec_committed());
        }
        drawable
    }
}

} // verus!
