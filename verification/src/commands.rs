//! The drawing commands that the core emits for the device.

use vstd::prelude::*;
use crate::model::Model;

verus! {

/// The binding at which a draw call reads its vertices.
pub const VERTEX_BINDING: u32 = 0;

/// The binding at which a draw call reads its instance records.
pub const INSTANCE_BINDING: u32 = 1;

/// One instanced draw call with the two buffers that it reads, each from its
/// first byte: the vertices at `VERTEX_BINDING`, the instance records at
/// `INSTANCE_BINDING`.
#[derive(Debug, Clone, Copy, PartialEq, Eq, Structural)]
pub struct DrawCall {
    /// The raw handle of the vertex buffer.
    pub vertex_buffer: u64,
    /// The raw handle of the instance buffer.
    pub instance_buffer: u64,
    pub vertex_count: usize,
    pub instance_count: usize,
    pub first_vertex: u32,
    pub first_instance: u32,
}

/// One command of a command buffer. Framebuffers and descriptor sets are
/// named by the index of the swap image that they belong to.
#[derive(Debug, Clone, Copy, PartialEq, Eq, Structural)]
pub enum RenderCommand {
    BeginCommandBuffer,
    /// Begin the render pass on this framebuffer, clearing it.
    BeginRenderPass { framebuffer: usize },
    /// Bind the graphics pipeline.
    BindPipeline,
    /// Bind this descriptor set, which holds the camera transform.
    BindDescriptorSet { set: usize },
    /// Bind `buffer` as vertex input at `binding`, read from `offset`.
    BindVertexBuffer { binding: u32, buffer: u64, offset: u64 },
    Draw { vertex_count: usize, instance_count: usize, first_vertex: u32, first_instance: u32 },
    EndRenderPass,
    EndCommandBuffer,
}

impl DrawCall {
    /// The commands that make up the draw call: both buffers are bound, then
    /// the draw is issued.
    pub open spec fn commands(self) -> Seq<RenderCommand> {
        seq![
            RenderCommand::BindVertexBuffer {
                binding: VERTEX_BINDING,
                buffer: self.vertex_buffer,
                offset: 0,
            },
            RenderCommand::BindVertexBuffer {
                binding: INSTANCE_BINDING,
                buffer: self.instance_buffer,
                offset: 0,
            },
            RenderCommand::Draw {
                vertex_count: self.vertex_count,
                instance_count: self.instance_count,
                first_vertex: self.first_vertex,
                first_instance: self.first_instance,
            },
        ]
    }

    /// Appends the commands of the draw call to `recorded`.
    pub fn record(&self, recorded: &mut Vec<RenderCommand>)
        ensures
            final(recorded)@ == old(recorded)@ + self.commands(),
    {
        recorded.push(
            RenderCommand::BindVertexBuffer {
                binding: VERTEX_BINDING,
                buffer: self.vertex_buffer,
                offset: 0,
            },
        );
        recorded.push(
            RenderCommand::BindVertexBuffer {
                binding: INSTANCE_BINDING,
                buffer: self.instance_buffer,
                offset: 0,
            },
        );
        recorded.push(
            RenderCommand::Draw {
                vertex_count: self.vertex_count,
                instance_count: self.instance_count,
                first_vertex: self.first_vertex,
                first_instance: self.first_instance,
            },
        );
    }
}

/// The commands that draw the registries of `models`, first to last. A
/// registry with nothing to draw adds nothing.
pub open spec fn draw_commands<V, I>(models: Seq<Model<V, I>>) -> Seq<RenderCommand>
    decreases models.len(),
{
    if models.len() == 0 {
        Seq::empty()
    } else {
        draw_commands(models.drop_last()) + (match models.last()@.draw() {
            Some(call) => call.commands(),
            None => Seq::empty(),
        })
    }
}

/// The whole command buffer of the swap image `image`: the render pass on the
/// framebuffer of the image, with the pipeline and the descriptor set of the
/// image bound, around the draw calls of `models`.
pub open spec fn frame_commands<V, I>(models: Seq<Model<V, I>>, image: usize) -> Seq<
    RenderCommand,
> {
    seq![
        RenderCommand::BeginCommandBuffer,
        RenderCommand::BeginRenderPass { framebuffer: image },
        RenderCommand::BindPipeline,
        RenderCommand::BindDescriptorSet { set: image },
    ] + draw_commands(models) + seq![RenderCommand::EndRenderPass, RenderCommand::EndCommandBuffer]
}

/// Records the command buffer of the swap image `image` from scratch.
pub fn update_commandbuffer<V, I>(models: &Vec<Model<V, I>>, image: usize) -> (recorded: Vec<
    RenderCommand,
>)
    ensures
        recorded@ == frame_commands(models@, image),
{
    let mut recorded: Vec<RenderCommand> = Vec::new();
    recorded.push(RenderCommand::BeginCommandBuffer);
    recorded.push(RenderCommand::BeginRenderPass { framebuffer: image });
    recorded.push(RenderCommand::BindPipeline);
    recorded.push(RenderCommand::BindDescriptorSet { set: image });
    let ghost head = recorded@;
    let mut index: usize = 0;
    while index < models.len()
        invariant
            index <= models.len(),
            recorded@ == head + draw_commands(models@.subrange(0, index as int)),
        decreases models.len() - index,
    {
        match models[index].draw() {
            Some(call) => call.record(&mut recorded),
            None => {},
        }
        proof {
            let shown = models@.subrange(0, index + 1);
            assert(shown.drop_last() =~= models@.subrange(0, index as int));
        }
        index += 1;
    }
    assert(models@.subrange(0, index as int) =~= models@);
    recorded.push(RenderCommand::EndRenderPass);
    recorded.push(RenderCommand::EndCommandBuffer);
    recorded
}

} // verus!
