//! The renderer's top level: one-time initialization and the per-frame
//! entry point.
//!
//! Initialization runs the whole setup in phase order — staged upload of
//! the synthesized geometry, then render pass, framebuffers, pipeline, and
//! command baking — and is fatal on the first failure: the error names the
//! failing phase, and no later phase runs.  Afterwards every object is
//! immutable; the per-frame entry point only selects the pre-baked command
//! buffer matching the presented back buffer and submits it.

use vstd::prelude::*;

use crate::commands::BakedCommandBuffer;
use crate::commands::bake_frame_commands;
use crate::commands::baked_commands;
use crate::pipeline::Framebuffer;
use crate::pipeline::GraphShaderVertexSpecConstants;
use crate::pipeline::GraphicsPipelineDescription;
use crate::pipeline::RenderPassDescription;
use crate::pipeline::ShaderCatalog;
use crate::pipeline::ShaderModules;
use crate::pipeline::SurfaceDescription;
use crate::pipeline::build_graphics_pipeline;
use crate::pipeline::build_render_pass;
use crate::pipeline::make_framebuffers;
use crate::pipeline::pipeline_spec;
use crate::pipeline::render_pass_spec;
use crate::resource::DeviceModel;
use crate::resource::DrawRecord;
use crate::resource::ResourceUsageState;
use crate::synth::SampleBuffer;
use crate::upload::InitError;
use crate::upload::StandardMesh;
use crate::upload::upload_complete;
use crate::upload::upload_failed;
use crate::upload::upload_samples;

verus! {

/// The fully initialized renderer: every field is created once during
/// [`Game::init`] and immutable thereafter.
pub struct Game {
    /// The single shared render pass.
    pub main_render_pass: RenderPassDescription,
    /// One framebuffer per back-buffer image.
    pub framebuffers: Vec<Framebuffer>,
    /// The uploaded waveform geometry.
    pub graph_mesh: StandardMesh,
    /// The immutable graph pipeline.
    pub graph_pipeline: GraphicsPipelineDescription,
    /// One pre-baked command buffer per framebuffer.
    pub render_cb: Vec<BakedCommandBuffer>,
}

impl Game {
    /// Well-formedness against the backend: the mesh's vertex buffer is
    /// allocated, vertex-capable and tracked in state `VertexBuffer`, and
    /// there is one baked command buffer per framebuffer, each holding
    /// exactly the five-command replay sequence for its framebuffer.
    pub open spec fn wf(&self, model: DeviceModel) -> bool {
        let vb = self.graph_mesh.vertex_buffer;
        &&& vb < model.buffers@.len()
        &&& model.buffers@[vb as int].state == ResourceUsageState::VertexBuffer
        &&& model.buffers@[vb as int].usage.vertex_buffer
        &&& self.render_cb@.len() == self.framebuffers@.len()
        &&& forall|i: int|
            0 <= i < self.render_cb@.len() ==> (#[trigger] self.render_cb@[i]).commands@
                == baked_commands(i as usize, vb, self.graph_mesh.vertex_count)
    }

    /// Everything a successful initialization builds, stated over the
    /// inputs: the upload completed, the mesh names the fresh device
    /// buffer and all its samples, the render pass and pipeline are
    /// exactly the fixed descriptions (with `generate_samples` set to the
    /// sample count), there is one framebuffer per back-buffer image, and
    /// one baked command buffer per framebuffer.
    pub open spec fn init_post(
        pre: DeviceModel,
        post: DeviceModel,
        surface: SurfaceDescription,
        shaders: ShaderModules,
        samples: SampleBuffer,
        game: Game,
    ) -> bool {
        &&& upload_complete(pre, post, samples)
        &&& game.graph_mesh.vertex_buffer == pre.buffers@.len()
        &&& game.graph_mesh.vertex_count == samples.words@.len()
        &&& game.main_render_pass == render_pass_spec(surface)
        &&& game.framebuffers@.len() == surface.image_count
        &&& forall|i: int|
            0 <= i < surface.image_count ==> game.framebuffers@[i] == (Framebuffer {
                back_buffer_index: i as usize,
                width: surface.width,
                height: surface.height,
            })
        &&& game.graph_pipeline == pipeline_spec(
            surface,
            shaders,
            samples.words@.len() as u32,
        )
        &&& game.render_cb@.len() == surface.image_count
        &&& forall|i: int|
            0 <= i < surface.image_count ==> (#[trigger] game.render_cb@[i]).commands@
                == baked_commands(
                i as usize,
                game.graph_mesh.vertex_buffer,
                game.graph_mesh.vertex_count,
            )
    }

    /// One-time initialization, in phase order: upload the synthesized
    /// samples through the staging buffer, look the graph shaders up,
    /// build the render pass, the framebuffers and the pipeline, and bake
    /// one command buffer per framebuffer.  Succeeds exactly when the
    /// backend grants both allocations, accepts the staging write and the
    /// submission, and the shader provider has the graph shaders; any
    /// failure aborts initialization at its phase, before anything of a
    /// later phase is built — in particular, a staging failure leaves the
    /// transition log untouched and no pipeline or framebuffer exists.
    pub fn init(
        model: &mut DeviceModel,
        surface: &SurfaceDescription,
        shaders: &ShaderCatalog,
        samples: &SampleBuffer,
    ) -> (r: Result<Game, InitError>)
        requires
            old(model).wf(),
            samples.wf(),
        ensures
            final(model).wf(),
            (r is Ok) <==> (old(model).buffers@.len() + 2 <= old(model).alloc_limit && !old(
                model,
            ).fail_write && !old(model).fail_submission && shaders.graph is Some),
            r matches Ok(game) ==> (shaders.graph matches Some(m) && Game::init_post(
                *old(model),
                *final(model),
                *surface,
                m,
                *samples,
                game,
            ) && game.wf(*final(model))),
            r matches Err(e) ==> (e == InitError::PipelineCreation ==> shaders.graph is None
                && upload_complete(*old(model), *final(model), *samples)),
            r matches Err(e) ==> (e != InitError::PipelineCreation ==> upload_failed(
                *old(model),
                *final(model),
                *samples,
                e,
            )),
    {
        let graph_mesh = match upload_samples(model, samples) {
            Ok(mesh) => mesh,
            Err(e) => {
                return Err(e);
            },
        };
        let modules = match shaders.lookup_graph() {
            Some(m) => m,
            None => {
                return Err(InitError::PipelineCreation);
            },
        };
        let main_render_pass = build_render_pass(surface);
        let framebuffers = make_framebuffers(surface);
        let constants = GraphShaderVertexSpecConstants {
            generate_samples: graph_mesh.vertex_count,
        };
        let graph_pipeline = build_graphics_pipeline(
            surface,
            &main_render_pass,
            modules,
            constants,
        );
        let render_cb = bake_frame_commands(framebuffers.len(), &graph_mesh);
        Ok(Game { main_render_pass, framebuffers, graph_mesh, graph_pipeline, render_cb })
    }

    /// Per-frame entry point, invoked once per presented frame: submit the
    /// single pre-baked command buffer matching the back buffer about to
    /// be presented.  No recording happens and no resource is written; on
    /// success exactly one draw of the whole mesh, as one instance, is
    /// submitted, and a failed submission (or an out-of-range back-buffer
    /// index) is fatal and changes nothing.
    pub fn update(&self, model: &mut DeviceModel, on_back_buffer_of: u32) -> (r: Result<
        (),
        InitError,
    >)
        requires
            old(model).wf(),
            self.wf(*old(model)),
        ensures
            final(model).wf(),
            self.wf(*final(model)),
            (r is Ok) <==> (on_back_buffer_of < self.render_cb@.len() && !old(
                model,
            ).fail_submission),
            r is Ok ==> {
                &&& final(model).draws@ == old(model).draws@.push(
                    (DrawRecord {
                        buffer: self.graph_mesh.vertex_buffer,
                        vertex_count: self.graph_mesh.vertex_count,
                        instance_count: 1,
                    }),
                )
                &&& final(model).buffers@ == old(model).buffers@
                &&& final(model).transitions@ == old(model).transitions@
                &&& final(model).same_config(old(model))
            },
            r matches Err(e) ==> (e == InitError::Submission && *final(model) == *old(model)),
    {
        if on_back_buffer_of as usize >= self.render_cb.len() {
            return Err(InitError::Submission);
        }
        if model.fail_submission {
            return Err(InitError::Submission);
        }
        // Replay of render_cb[on_back_buffer_of]: its one draw, of the
        // whole mesh bound as vertex input.
        model.submit_draw(self.graph_mesh.vertex_buffer, self.graph_mesh.vertex_count, 1);
        Ok(())
    }

    /// How many command buffers were baked (one per back-buffer image).
    pub fn baked_count(&self) -> (r: usize)
        ensures
            r == self.render_cb@.len(),
    {
        self.render_cb.len()
    }
}

} // verus!
