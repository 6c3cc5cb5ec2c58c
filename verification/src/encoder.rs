//! The command encoder of one render pass: it records what the host is to
//! replay on the GPU, and keeps track of the pipeline that is bound.

use crate::ids::{BindGroup, CachedRenderPipelineId, TextureView};
use vstd::prelude::*;

verus! {

/// The part of the render target that a camera draws to.
#[derive(Clone, Copy, Debug, PartialEq, Eq, Hash)]
pub struct Viewport {
    pub physical_position: (u32, u32),
    pub physical_size: (u32, u32),
    /// The nearest and the farthest depth, as the bits of their
    /// single-precision values.
    pub depth_bits: (u32, u32),
}

/// What becomes of an attachment at the end of a pass.
#[derive(Clone, Copy, Debug, PartialEq, Eq, Hash, Structural)]
pub enum StoreOp {
    Store,
    Discard,
}

/// The attachments of a render pass.
#[derive(Clone, Copy, Debug, PartialEq, Eq, Hash)]
pub struct RenderPassDescriptor {
    pub label: &'static str,
    /// The only colour attachment.
    pub color_attachment: TextureView,
    pub depth_stencil_attachment: TextureView,
    /// What becomes of the depth at the end of the pass.
    pub depth_store: StoreOp,
}

/// One step of a render pass.
#[derive(Clone, Copy, Debug, PartialEq, Eq, Hash)]
pub enum Command {
    /// Opens the render pass.
    BeginRenderPass(RenderPassDescriptor),
    SetViewport(Viewport),
    SetRenderPipeline(CachedRenderPipelineId),
    SetBindGroup { index: usize, bind_group: BindGroup, dynamic_offset: Option<u32> },
    /// Draws the instances of the mesh `mesh` from `first_instance` up to
    /// `end_instance`, with its indices where it is `indexed`.
    Draw { mesh: u64, indexed: bool, first_instance: u32, end_instance: u32 },
    /// Draws from the vertex and index buffers of a batch set, with `count`
    /// indirect parameters from `first` on.
    MultiDrawIndirect {
        vertex_slab: u32,
        index_slab: Option<u32>,
        first: u32,
        count: u32,
        batch_set_index: Option<u32>,
    },
    /// Closes the render pass.
    EndRenderPass,
}

impl Command {
    /// Whether the command issues a draw call.
    pub open spec fn spec_is_draw(self) -> bool {
        self is Draw || self is MultiDrawIndirect
    }

    /// Whether the command issues a draw call.
    #[verifier::when_used_as_spec(spec_is_draw)]
    pub fn is_draw(self) -> (r: bool)
        ensures
            r == self.spec_is_draw(),
    {
        match self {
            Command::Draw { .. } => true,
            Command::MultiDrawIndirect { .. } => true,
            _ => false,
        }
    }

    /// Whether the command draws nothing though it is a draw call.
    pub open spec fn is_degenerate(self) -> bool {
        match self {
            Command::Draw { first_instance, end_instance, .. } => first_instance >= end_instance,
            Command::MultiDrawIndirect { count, .. } => count == 0,
            _ => false,
        }
    }
}

/// The pipeline that is bound after the commands.
pub open spec fn last_pipeline(commands: Seq<Command>) -> Option<CachedRenderPipelineId>
    decreases commands.len(),
{
    if commands.len() == 0 {
        None
    } else {
        match commands.last() {
            Command::SetRenderPipeline(pipeline) => Some(pipeline),
            _ => last_pipeline(commands.drop_last()),
        }
    }
}

/// Whether every command that binds a pipeline binds another one than the
/// one that is bound already.
pub open spec fn no_redundant_binds(commands: Seq<Command>) -> bool {
    forall|j: int|
        0 <= j < commands.len() ==> ((#[trigger] commands[j]) matches Command::SetRenderPipeline(
            pipeline,
        ) ==> last_pipeline(commands.take(j)) != Some(pipeline))
}

/// Whether no draw call draws nothing.
pub open spec fn no_degenerate_draws(commands: Seq<Command>) -> bool {
    forall|j: int| 0 <= j < commands.len() ==> !(#[trigger] commands[j]).is_degenerate()
}

/// Whether the commands open one render pass, at their start, and do not
/// close it.
pub open spec fn one_open_pass(commands: Seq<Command>) -> bool {
    &&& commands.len() > 0
    &&& commands[0] is BeginRenderPass
    &&& forall|j: int|
        0 < j < commands.len() ==> !((#[trigger] commands[j]) is BeginRenderPass) && !(commands[j]
            is EndRenderPass)
}

/// Number of draw calls among the commands.
pub open spec fn draw_calls(commands: Seq<Command>) -> nat
    decreases commands.len(),
{
    if commands.len() == 0 {
        0
    } else {
        draw_calls(commands.drop_last()) + if commands.last().is_draw() {
            1nat
        } else {
            0nat
        }
    }
}

/// Number of commands that bind a pipeline.
pub open spec fn pipeline_binds(commands: Seq<Command>) -> nat
    decreases commands.len(),
{
    if commands.len() == 0 {
        0
    } else {
        pipeline_binds(commands.drop_last()) + if commands.last() is SetRenderPipeline {
            1nat
        } else {
            0nat
        }
    }
}

/// The commands with `pipeline` bound: nothing is added where it is bound
/// already.
pub open spec fn with_pipeline(commands: Seq<Command>, pipeline: CachedRenderPipelineId) -> Seq<
    Command,
> {
    if last_pipeline(commands) == Some(pipeline) {
        commands
    } else {
        commands.push(Command::SetRenderPipeline(pipeline))
    }
}

/// A command that binds no pipeline leaves the bound pipeline as it is and
/// makes no bind redundant.
pub proof fn lemma_push_other(commands: Seq<Command>, command: Command)
    requires
        !(command is SetRenderPipeline),
    ensures
        last_pipeline(commands.push(command)) == last_pipeline(commands),
        no_redundant_binds(commands) ==> no_redundant_binds(commands.push(command)),
{
    let after = commands.push(command);
    assert(after.drop_last() =~= commands);
    if no_redundant_binds(commands) {
        assert forall|j: int| 0 <= j < after.len() implies ((
        #[trigger] after[j]) matches Command::SetRenderPipeline(pipeline) ==> last_pipeline(
            after.take(j),
        ) != Some(pipeline)) by {
            if j < commands.len() {
                assert(after.take(j) =~= commands.take(j));
            }
        }
    }
}

/// Binding a pipeline that is not bound makes no bind redundant.
pub proof fn lemma_push_pipeline(commands: Seq<Command>, pipeline: CachedRenderPipelineId)
    requires
        last_pipeline(commands) != Some(pipeline),
    ensures
        last_pipeline(commands.push(Command::SetRenderPipeline(pipeline))) == Some(pipeline),
        no_redundant_binds(commands) ==> no_redundant_binds(
            commands.push(Command::SetRenderPipeline(pipeline)),
        ),
{
    let after = commands.push(Command::SetRenderPipeline(pipeline));
    assert(after.drop_last() =~= commands);
    if no_redundant_binds(commands) {
        assert forall|j: int| 0 <= j < after.len() implies ((
        #[trigger] after[j]) matches Command::SetRenderPipeline(p) ==> last_pipeline(
            after.take(j),
        ) != Some(p)) by {
            if j < commands.len() {
                assert(after.take(j) =~= commands.take(j));
            }
        }
    }
}

/// Where the encoding of a pass stands. A [`CommandEncoder`] is idle, a
/// [`TrackedRenderPass`] is encoding, and a [`CommandBuffer`] is submitted:
/// each step uses up the value of the step before, so that no pass is opened
/// twice and nothing is recorded in a pass that was handed over.
#[derive(Clone, Copy, Debug, PartialEq, Eq, Hash, Structural)]
pub enum EncoderState {
    /// No pass was opened.
    Idle,
    /// The pass is open and takes commands.
    Encoding,
    /// The commands were handed over. Nothing can be added.
    Submitted,
}

/// The commands of one pass, as they go to the submission queue.
#[derive(Clone, Debug, PartialEq, Eq)]
pub struct CommandBuffer {
    pub label: &'static str,
    pub commands: Vec<Command>,
}

impl CommandBuffer {
    /// Where the encoding stands: it is done.
    pub fn state(&self) -> (state: EncoderState)
        ensures
            state == EncoderState::Submitted,
    {
        EncoderState::Submitted
    }
}

/// An encoder that has not opened its pass yet.
#[derive(Debug)]
pub struct CommandEncoder {
    pub label: &'static str,
}

impl CommandEncoder {
    /// An idle encoder.
    pub fn new(label: &'static str) -> (encoder: Self)
        ensures
            encoder.label == label,
    {
        CommandEncoder { label }
    }

    /// Where the encoding stands: it has not begun.
    pub fn state(&self) -> (state: EncoderState)
        ensures
            state == EncoderState::Idle,
    {
        EncoderState::Idle
    }

    /// Opens the render pass: the encoder goes from idle to encoding.
    pub fn begin_render_pass(self, descriptor: RenderPassDescriptor) -> (pass: TrackedRenderPass)
        ensures
            pass.wf(),
            pass@ == (TrackedRenderPassView {
                label: self.label,
                commands: seq![Command::BeginRenderPass(descriptor)],
            }),
    {
        proof {
            lemma_push_other(Seq::<Command>::empty(), Command::BeginRenderPass(descriptor));
        }
        let mut commands: Vec<Command> = Vec::new();
        commands.push(Command::BeginRenderPass(descriptor));
        TrackedRenderPass { label: self.label, commands, pipeline: None }
    }
}

/// An open render pass. It records the commands of the pass and keeps track
/// of the pipeline that is bound.
#[derive(Debug)]
pub struct TrackedRenderPass {
    label: &'static str,
    commands: Vec<Command>,
    pipeline: Option<CachedRenderPipelineId>,
}

/// Mathematical content of a [`TrackedRenderPass`].
pub struct TrackedRenderPassView {
    pub label: &'static str,
    pub commands: Seq<Command>,
}

impl View for TrackedRenderPass {
    type V = TrackedRenderPassView;

    closed spec fn view(&self) -> TrackedRenderPassView {
        TrackedRenderPassView { label: self.label, commands: self.commands@ }
    }
}

impl TrackedRenderPassView {
    /// The pass is open, holds no redundant bind, and no draw call that
    /// draws nothing.
    pub open spec fn wf(self) -> bool {
        &&& one_open_pass(self.commands)
        &&& no_redundant_binds(self.commands)
        &&& no_degenerate_draws(self.commands)
    }

    /// The pass with one more command.
    pub open spec fn push(self, command: Command) -> TrackedRenderPassView {
        TrackedRenderPassView { commands: self.commands.push(command), ..self }
    }

    /// The pass with one more command, unless the command is a draw call
    /// that draws nothing.
    pub open spec fn push_draw(self, command: Command) -> TrackedRenderPassView {
        if command.is_degenerate() {
            self
        } else {
            self.push(command)
        }
    }

    /// The pass with other commands.
    pub open spec fn with(self, commands: Seq<Command>) -> TrackedRenderPassView {
        TrackedRenderPassView { commands, ..self }
    }
}

impl TrackedRenderPass {
    /// What every pass that this module hands out satisfies.
    pub closed spec fn wf(&self) -> bool {
        &&& self@.wf()
        &&& self.pipeline == last_pipeline(self.commands@)
    }

    /// Where the encoding stands: the pass is open.
    pub fn state(&self) -> (state: EncoderState)
        ensures
            state == EncoderState::Encoding,
    {
        EncoderState::Encoding
    }

    /// Number of commands recorded.
    pub fn len(&self) -> (n: usize)
        ensures
            n == self@.commands.len(),
            self.wf() ==> self@.wf(),
    {
        self.commands.len()
    }

    /// Restricts drawing to the viewport of the camera.
    pub fn set_camera_viewport(&mut self, viewport: &Viewport)
        requires
            old(self).wf(),
        ensures
            final(self).wf(),
            final(self)@ == old(self)@.push(Command::SetViewport(*viewport)),
    {
        proof {
            lemma_push_other(self.commands@, Command::SetViewport(*viewport));
        }
        self.commands.push(Command::SetViewport(*viewport));
    }

    /// Binds `pipeline`, unless it is the pipeline that is bound.
    pub fn set_render_pipeline(&mut self, pipeline: CachedRenderPipelineId)
        requires
            old(self).wf(),
        ensures
            final(self).wf(),
            final(self)@ == old(self)@.with(with_pipeline(old(self)@.commands, pipeline)),
    {
        let bound = match self.pipeline {
            Some(current) => current == pipeline,
            None => false,
        };
        if !bound {
            proof {
                lemma_push_pipeline(self.commands@, pipeline);
            }
            self.commands.push(Command::SetRenderPipeline(pipeline));
            self.pipeline = Some(pipeline);
        }
    }

    /// Binds `bind_group` at `index`.
    pub fn set_bind_group(&mut self, index: usize, bind_group: BindGroup, dynamic_offset: Option<u32>)
        requires
            old(self).wf(),
        ensures
            final(self).wf(),
            final(self)@ == old(self)@.push(
                Command::SetBindGroup { index, bind_group, dynamic_offset },
            ),
    {
        proof {
            lemma_push_other(
                self.commands@,
                Command::SetBindGroup { index, bind_group, dynamic_offset },
            );
        }
        self.commands.push(Command::SetBindGroup { index, bind_group, dynamic_offset });
    }

    /// Draws the instances of the mesh `mesh` from `first_instance` up to
    /// `end_instance`. Where there is no such instance, no draw call is
    /// recorded.
    pub fn draw(&mut self, mesh: u64, indexed: bool, first_instance: u32, end_instance: u32)
        requires
            old(self).wf(),
        ensures
            final(self).wf(),
            final(self)@ == old(self)@.push_draw(
                Command::Draw { mesh, indexed, first_instance, end_instance },
            ),
    {
        if first_instance < end_instance {
            proof {
                lemma_push_other(
                    self.commands@,
                    Command::Draw { mesh, indexed, first_instance, end_instance },
                );
            }
            self.commands.push(Command::Draw { mesh, indexed, first_instance, end_instance });
        }
    }

    /// Draws from the vertex and index buffers of a batch set, with `count`
    /// indirect parameters from `first` on. Where `count` is zero, no draw
    /// call is recorded.
    pub fn multi_draw_indirect(
        &mut self,
        vertex_slab: u32,
        index_slab: Option<u32>,
        first: u32,
        count: u32,
        batch_set_index: Option<u32>,
    )
        requires
            old(self).wf(),
        ensures
            final(self).wf(),
            final(self)@ == old(self)@.push_draw(
                Command::MultiDrawIndirect { vertex_slab, index_slab, first, count, batch_set_index },
            ),
    {
        if count > 0 {
            proof {
                lemma_push_other(
                    self.commands@,
                    Command::MultiDrawIndirect {
                        vertex_slab,
                        index_slab,
                        first,
                        count,
                        batch_set_index,
                    },
                );
            }
            self.commands.push(
                Command::MultiDrawIndirect { vertex_slab, index_slab, first, count, batch_set_index },
            );
        }
    }

    /// Closes the pass and hands the commands over: the pass goes from
    /// encoding to submitted.
    pub fn finish(self) -> (buffer: CommandBuffer)
        requires
            self.wf(),
        ensures
            buffer.label == self@.label,
            buffer.commands@ == self@.commands.push(Command::EndRenderPass),
            no_redundant_binds(buffer.commands@),
            no_degenerate_draws(buffer.commands@),
    {
        proof {
            lemma_push_other(self.commands@, Command::EndRenderPass);
        }
        let mut commands = self.commands;
        commands.push(Command::EndRenderPass);
        CommandBuffer { label: self.label, commands }
    }
}

} // verus!
