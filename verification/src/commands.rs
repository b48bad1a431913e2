//! Pre-baked, replay-only command buffers.
//!
//! One command buffer is recorded per framebuffer, exactly once, during
//! initialization: begin the render pass on that framebuffer with a clear,
//! bind the pipeline, bind the vertex buffer, draw the whole mesh once, end
//! the render pass.  The buffers are immutable values thereafter; the
//! per-frame hot path only selects one by back-buffer index and submits it,
//! never re-entering recording logic.

use vstd::prelude::*;

use crate::upload::StandardMesh;

verus! {

/// A clear color, with components on a 0..=1 unit scale.
#[derive(Clone, Copy, PartialEq, Eq, Structural, Debug)]
pub struct ClearColor {
    /// Red component.
    pub red: u32,
    /// Green component.
    pub green: u32,
    /// Blue component.
    pub blue: u32,
    /// Alpha component.
    pub alpha: u32,
}

/// Opaque black: what the color attachment is cleared to every frame.
pub open spec fn clear_black_opaque() -> ClearColor {
    ClearColor { red: 0, green: 0, blue: 0, alpha: 1 }
}

/// One recorded rendering command.
#[derive(Clone, Copy, PartialEq, Eq, Structural, Debug)]
pub enum RenderCommand {
    /// Begin the shared render pass on one framebuffer, clearing its color
    /// attachment.
    BeginRenderPass {
        /// Index of the framebuffer (and back-buffer image) targeted.
        framebuffer: usize,
        /// The clear value for the color attachment.
        clear: ClearColor,
    },
    /// Bind the graph graphics pipeline.
    BindPipeline,
    /// Bind a vertex buffer at a binding slot.
    BindVertexBuffer {
        /// The binding slot.
        binding: u32,
        /// The buffer bound.
        buffer: usize,
    },
    /// Draw unindexed vertices.
    Draw {
        /// Number of vertices.
        vertex_count: u32,
        /// Number of instances.
        instance_count: u32,
    },
    /// End the render pass.
    EndRenderPass,
}

/// One pre-baked command buffer: recorded once, replayed unchanged.
pub struct BakedCommandBuffer {
    /// The recorded commands, in order.
    pub commands: Vec<RenderCommand>,
}

/// The exact content baked for framebuffer `framebuffer`: begin the render
/// pass clearing to opaque black, bind the pipeline, bind the mesh's vertex
/// buffer at binding 0, draw all its vertices as one instance, end the
/// render pass.
pub open spec fn baked_commands(framebuffer: usize, vertex_buffer: usize, vertex_count: u32) -> Seq<
    RenderCommand,
> {
    seq![
        RenderCommand::BeginRenderPass { framebuffer, clear: clear_black_opaque() },
        RenderCommand::BindPipeline,
        RenderCommand::BindVertexBuffer { binding: 0, buffer: vertex_buffer },
        RenderCommand::Draw { vertex_count, instance_count: 1 },
        RenderCommand::EndRenderPass,
    ]
}

/// Record one command buffer per framebuffer, in framebuffer order, each
/// holding exactly the five-command sequence for its framebuffer.
pub fn bake_frame_commands(framebuffer_count: usize, mesh: &StandardMesh) -> (r: Vec<
    BakedCommandBuffer,
>)
    ensures
        r@.len() == framebuffer_count,
        forall|i: int|
            0 <= i < framebuffer_count ==> (#[trigger] r@[i]).commands@ == baked_commands(
                i as usize,
                mesh.vertex_buffer,
                mesh.vertex_count,
            ),
{
    let mut baked: Vec<BakedCommandBuffer> = Vec::new();
    let mut n: usize = 0;
    while n < framebuffer_count
        invariant
            n <= framebuffer_count,
            baked@.len() == n,
            forall|i: int|
                0 <= i < n ==> (#[trigger] baked@[i]).commands@ == baked_commands(
                    i as usize,
                    mesh.vertex_buffer,
                    mesh.vertex_count,
                ),
        decreases framebuffer_count - n,
    {
        let mut commands: Vec<RenderCommand> = Vec::new();
        commands.push(
            RenderCommand::BeginRenderPass {
                framebuffer: n,
                clear: ClearColor { red: 0, green: 0, blue: 0, alpha: 1 },
            },
        );
        commands.push(RenderCommand::BindPipeline);
        commands.push(
            RenderCommand::BindVertexBuffer { binding: 0, buffer: mesh.vertex_buffer },
        );
        commands.push(
            RenderCommand::Draw { vertex_count: mesh.vertex_count, instance_count: 1 },
        );
        commands.push(RenderCommand::EndRenderPass);
        proof {
            assert(commands@ =~= baked_commands(n, mesh.vertex_buffer, mesh.vertex_count));
        }
        baked.push(BakedCommandBuffer { commands });
        n = n + 1;
    }
    baked
}

/// Baking is idempotent: two command-buffer sets recorded from identical
/// inputs have identical structural content — the same draw parameters and
/// the same framebuffer references, with no hidden per-call variation.
pub proof fn lemma_baking_idempotent(
    framebuffer_count: usize,
    mesh: StandardMesh,
    first: Seq<Seq<RenderCommand>>,
    second: Seq<Seq<RenderCommand>>,
)
    requires
        first.len() == framebuffer_count,
        second.len() == framebuffer_count,
        forall|i: int|
            0 <= i < framebuffer_count ==> first[i] == baked_commands(
                i as usize,
                mesh.vertex_buffer,
                mesh.vertex_count,
            ),
        forall|i: int|
            0 <= i < framebuffer_count ==> second[i] == baked_commands(
                i as usize,
                mesh.vertex_buffer,
                mesh.vertex_count,
            ),
    ensures
        first == second,
{
    assert(first =~= second);
}

} // verus!
