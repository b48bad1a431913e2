//! Render pass and graphics pipeline construction.
//!
//! Both objects are immutable descriptions built once from the swap
//! surface: a render pass with one cleared-and-stored color attachment and
//! one external dependency guarding the first color write, and a fixed
//! line-strip pipeline with a static full-surface viewport and scissor, no
//! blending, no descriptor sets, no push constants, and one specialization
//! constant injected into the vertex shader stage.

use vstd::prelude::*;

verus! {

/// Pipeline stage mask covering all prior commands.
pub const STAGE_ALL_COMMANDS: u32 = 0x0001_0000;

/// Pipeline stage mask of the color-attachment-output stage.
pub const STAGE_COLOR_ATTACHMENT_OUTPUT: u32 = 0x0000_0400;

/// Access mask of color-attachment writes.
pub const ACCESS_COLOR_ATTACHMENT_WRITE: u32 = 0x0000_0100;

/// Subpass index naming the implicit external subpass.
pub const SUBPASS_EXTERNAL: u32 = 0xffff_ffff;

/// What the swap-surface provider exposes: the back-buffer color format,
/// the per-image extent, and how many back-buffer images there are.
#[derive(Clone, Copy, PartialEq, Eq, Structural, Debug)]
pub struct SurfaceDescription {
    /// Color format code of the back-buffer images.
    pub format: u32,
    /// Back-buffer width in pixels.
    pub width: u32,
    /// Back-buffer height in pixels.
    pub height: u32,
    /// Number of back-buffer images.
    pub image_count: usize,
}

/// What happens to an attachment's contents when a render pass begins.
#[derive(Clone, Copy, PartialEq, Eq, Structural, Debug)]
pub enum LoadOp {
    /// Clear the attachment.
    Clear,
    /// Keep the previous contents.
    Load,
    /// Contents are undefined.
    DontCare,
}

/// What happens to an attachment's contents when a render pass ends.
#[derive(Clone, Copy, PartialEq, Eq, Structural, Debug)]
pub enum StoreOp {
    /// Keep the rendered contents.
    Store,
    /// Contents may be discarded.
    DontCare,
}

/// Image layout an attachment is used in.
#[derive(Clone, Copy, PartialEq, Eq, Structural, Debug)]
pub enum ImageLayout {
    /// Optimal for color-attachment output.
    ColorAttachmentOptimal,
    /// Usable for anything, optimal for nothing.
    General,
}

/// One dependency between subpasses (or the external subpass), as a pair of
/// stage masks, a pair of access masks, and the by-region flag.
#[derive(Clone, Copy, PartialEq, Eq, Structural, Debug)]
pub struct SubpassDependency {
    /// Source subpass, or `SUBPASS_EXTERNAL`.
    pub src_subpass: u32,
    /// Destination subpass.
    pub dst_subpass: u32,
    /// Stages that must complete in the source.
    pub src_stage_mask: u32,
    /// Stages that wait in the destination.
    pub dst_stage_mask: u32,
    /// Accesses made visible from the source.
    pub src_access_mask: u32,
    /// Accesses waited on in the destination.
    pub dst_access_mask: u32,
    /// Whether the dependency is framebuffer-local.
    pub by_region: bool,
}

/// The single shared render pass: one color attachment and one subpass
/// writing it, plus one external dependency.
#[derive(Clone, Copy, PartialEq, Eq, Structural, Debug)]
pub struct RenderPassDescription {
    /// Format of the one color attachment; matches the back buffers.
    pub color_format: u32,
    /// Load operation on the color attachment.
    pub load_op: LoadOp,
    /// Store operation on the color attachment.
    pub store_op: StoreOp,
    /// Layout the one subpass writes the attachment in.
    pub color_output_layout: ImageLayout,
    /// The one external dependency guarding the first color write.
    pub dependency: SubpassDependency,
}

/// The render pass this renderer always builds: clear-on-load,
/// store-on-end, color output in the optimal layout, and an external
/// dependency bridging all prior stages to the color-attachment-output
/// stage with a color write access mask, by region.  This guards the race
/// between the implicit layout transition of the back buffer and the first
/// draw.
pub open spec fn render_pass_spec(surface: SurfaceDescription) -> RenderPassDescription {
    RenderPassDescription {
        color_format: surface.format,
        load_op: LoadOp::Clear,
        store_op: StoreOp::Store,
        color_output_layout: ImageLayout::ColorAttachmentOptimal,
        dependency: SubpassDependency {
            src_subpass: SUBPASS_EXTERNAL,
            dst_subpass: 0,
            src_stage_mask: STAGE_ALL_COMMANDS,
            dst_stage_mask: STAGE_COLOR_ATTACHMENT_OUTPUT,
            src_access_mask: 0,
            dst_access_mask: ACCESS_COLOR_ATTACHMENT_WRITE,
            by_region: true,
        },
    }
}

/// Build the main render pass against the swap surface's color format.
pub fn build_render_pass(surface: &SurfaceDescription) -> (r: RenderPassDescription)
    ensures
        r == render_pass_spec(*surface),
{
    RenderPassDescription {
        color_format: surface.format,
        load_op: LoadOp::Clear,
        store_op: StoreOp::Store,
        color_output_layout: ImageLayout::ColorAttachmentOptimal,
        dependency: SubpassDependency {
            src_subpass: SUBPASS_EXTERNAL,
            dst_subpass: 0,
            src_stage_mask: STAGE_ALL_COMMANDS,
            dst_stage_mask: STAGE_COLOR_ATTACHMENT_OUTPUT,
            src_access_mask: 0,
            dst_access_mask: ACCESS_COLOR_ATTACHMENT_WRITE,
            by_region: true,
        },
    }
}

/// One framebuffer per back-buffer image, each referencing the shared
/// render pass and a distinct back-buffer image view.
#[derive(Clone, Copy, PartialEq, Eq, Structural, Debug)]
pub struct Framebuffer {
    /// Which back-buffer image view this framebuffer wraps.
    pub back_buffer_index: usize,
    /// Width in pixels; matches the surface.
    pub width: u32,
    /// Height in pixels; matches the surface.
    pub height: u32,
}

/// Build one framebuffer per back-buffer image, in image order, each sized
/// to the surface extent.
pub fn make_framebuffers(surface: &SurfaceDescription) -> (r: Vec<Framebuffer>)
    ensures
        r@.len() == surface.image_count,
        forall|i: int|
            0 <= i < surface.image_count ==> r@[i] == (Framebuffer {
                back_buffer_index: i as usize,
                width: surface.width,
                height: surface.height,
            }),
{
    let mut v: Vec<Framebuffer> = Vec::new();
    let mut i: usize = 0;
    while i < surface.image_count
        invariant
            i <= surface.image_count,
            v@.len() == i,
            forall|j: int|
                0 <= j < i ==> v@[j] == (Framebuffer {
                    back_buffer_index: j as usize,
                    width: surface.width,
                    height: surface.height,
                }),
        decreases surface.image_count - i,
    {
        v.push(Framebuffer { back_buffer_index: i, width: surface.width, height: surface.height });
        i = i + 1;
    }
    v
}

/// Specialization constants injected into the graph vertex shader at
/// pipeline-creation time, so the shader's geometry generation can be
/// parameterized without a uniform buffer.
#[derive(Clone, Copy, PartialEq, Eq, Structural, Debug)]
pub struct GraphShaderVertexSpecConstants {
    /// Number of waveform samples the shader generates geometry for.
    pub generate_samples: u32,
}

/// A loaded vertex/fragment shader stage pair, as opaque module handles.
#[derive(Clone, Copy, PartialEq, Eq, Structural, Debug)]
pub struct ShaderModules {
    /// Handle of the vertex shader module.
    pub vertex_module: u32,
    /// Handle of the fragment shader module.
    pub fragment_module: u32,
}

/// The shader-module provider: a named lookup.  This core needs only the
/// graph shader pair; a provider that cannot supply it makes pipeline
/// construction fail fatally.
pub struct ShaderCatalog {
    /// The graph shader pair, if the provider can load it.
    pub graph: Option<ShaderModules>,
}

impl ShaderCatalog {
    /// Look up the graph shader pair.
    pub fn lookup_graph(&self) -> (r: Option<ShaderModules>)
        ensures
            r == self.graph,
    {
        self.graph
    }
}

/// Primitive topology a pipeline assembles vertices with.
#[derive(Clone, Copy, PartialEq, Eq, Structural, Debug)]
pub enum PrimitiveTopology {
    /// Each vertex extends one connected strip of lines.
    LineStrip,
    /// Every two vertices form an independent line.
    LineList,
    /// Every three vertices form an independent triangle.
    TriangleList,
}

/// An axis-aligned pixel rectangle, used for the static viewport and
/// scissor.
#[derive(Clone, Copy, PartialEq, Eq, Structural, Debug)]
pub struct Rect {
    /// Left edge.
    pub x: u32,
    /// Top edge.
    pub y: u32,
    /// Width in pixels.
    pub width: u32,
    /// Height in pixels.
    pub height: u32,
}

/// The immutable graphics pipeline: fixed-function state plus the shader
/// stages, bound to the shared render pass.
#[derive(Clone, Copy, PartialEq, Eq, Structural, Debug)]
pub struct GraphicsPipelineDescription {
    /// The shader stage pair.
    pub shaders: ShaderModules,
    /// Vertex assembly topology.
    pub topology: PrimitiveTopology,
    /// Whether per-attachment color blending is enabled.
    pub blend_enabled: bool,
    /// Multisample count.
    pub sample_count: u32,
    /// Static viewport.
    pub viewport: Rect,
    /// Static scissor.
    pub scissor: Rect,
    /// Number of descriptor sets in the pipeline layout.
    pub descriptor_set_count: u32,
    /// Bytes of push constants in the pipeline layout.
    pub push_constant_bytes: u32,
    /// The specialization constants baked into the vertex stage.
    pub vertex_spec_constants: GraphShaderVertexSpecConstants,
    /// Color format of the render pass the pipeline is bound to.
    pub color_format: u32,
}

/// The pipeline this renderer always builds: line-strip topology, no
/// blending, single-sample, static viewport and scissor covering exactly
/// the surface extent at origin, an empty pipeline layout, and the
/// `generate_samples` specialization constant in the vertex stage.
pub open spec fn pipeline_spec(
    surface: SurfaceDescription,
    shaders: ShaderModules,
    generate_samples: u32,
) -> GraphicsPipelineDescription {
    GraphicsPipelineDescription {
        shaders,
        topology: PrimitiveTopology::LineStrip,
        blend_enabled: false,
        sample_count: 1,
        viewport: Rect { x: 0, y: 0, width: surface.width, height: surface.height },
        scissor: Rect { x: 0, y: 0, width: surface.width, height: surface.height },
        descriptor_set_count: 0,
        push_constant_bytes: 0,
        vertex_spec_constants: GraphShaderVertexSpecConstants { generate_samples },
        color_format: surface.format,
    }
}

/// Build the graph pipeline against the shared render pass and the swap
/// surface's extent, injecting the given specialization constants into the
/// vertex stage.
pub fn build_graphics_pipeline(
    surface: &SurfaceDescription,
    render_pass: &RenderPassDescription,
    shaders: ShaderModules,
    constants: GraphShaderVertexSpecConstants,
) -> (r: GraphicsPipelineDescription)
    requires
        *render_pass == render_pass_spec(*surface),
    ensures
        r == pipeline_spec(*surface, shaders, constants.generate_samples),
{
    GraphicsPipelineDescription {
        shaders,
        topology: PrimitiveTopology::LineStrip,
        blend_enabled: false,
        sample_count: 1,
        viewport: Rect { x: 0, y: 0, width: surface.width, height: surface.height },
        scissor: Rect { x: 0, y: 0, width: surface.width, height: surface.height },
        descriptor_set_count: 0,
        push_constant_bytes: 0,
        vertex_spec_constants: constants,
        color_format: render_pass.color_format,
    }
}

} // verus!
