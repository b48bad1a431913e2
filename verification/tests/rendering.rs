use waveform_graph::commands::ClearColor;
use waveform_graph::commands::RenderCommand;
use waveform_graph::commands::bake_frame_commands;
use waveform_graph::pipeline::ACCESS_COLOR_ATTACHMENT_WRITE;
use waveform_graph::pipeline::Framebuffer;
use waveform_graph::pipeline::GraphShaderVertexSpecConstants;
use waveform_graph::pipeline::ImageLayout;
use waveform_graph::pipeline::LoadOp;
use waveform_graph::pipeline::PrimitiveTopology;
use waveform_graph::pipeline::Rect;
use waveform_graph::pipeline::STAGE_ALL_COMMANDS;
use waveform_graph::pipeline::STAGE_COLOR_ATTACHMENT_OUTPUT;
use waveform_graph::pipeline::SUBPASS_EXTERNAL;
use waveform_graph::pipeline::ShaderModules;
use waveform_graph::pipeline::StoreOp;
use waveform_graph::pipeline::SurfaceDescription;
use waveform_graph::pipeline::build_graphics_pipeline;
use waveform_graph::pipeline::build_render_pass;
use waveform_graph::pipeline::make_framebuffers;
use waveform_graph::upload::StandardMesh;

fn surface() -> SurfaceDescription {
    SurfaceDescription { format: 44, width: 640, height: 480, image_count: 3 }
}

#[test]
fn render_pass_clears_stores_and_guards_the_first_write() {
    let rp = build_render_pass(&surface());
    assert_eq!(rp.color_format, 44);
    assert_eq!(rp.load_op, LoadOp::Clear);
    assert_eq!(rp.store_op, StoreOp::Store);
    assert_eq!(rp.color_output_layout, ImageLayout::ColorAttachmentOptimal);
    assert_eq!(rp.dependency.src_subpass, SUBPASS_EXTERNAL);
    assert_eq!(rp.dependency.dst_subpass, 0);
    assert_eq!(rp.dependency.src_stage_mask, STAGE_ALL_COMMANDS);
    assert_eq!(rp.dependency.dst_stage_mask, STAGE_COLOR_ATTACHMENT_OUTPUT);
    assert_eq!(rp.dependency.src_access_mask, 0);
    assert_eq!(rp.dependency.dst_access_mask, ACCESS_COLOR_ATTACHMENT_WRITE);
    assert!(rp.dependency.by_region);
}

#[test]
fn one_framebuffer_per_back_buffer_image() {
    let fbs = make_framebuffers(&surface());
    assert_eq!(fbs.len(), 3);
    for (i, fb) in fbs.iter().enumerate() {
        assert_eq!(*fb, Framebuffer { back_buffer_index: i, width: 640, height: 480 });
    }
}

#[test]
fn pipeline_is_fixed_function_line_strip() {
    let s = surface();
    let rp = build_render_pass(&s);
    let modules = ShaderModules { vertex_module: 10, fragment_module: 11 };
    let constants = GraphShaderVertexSpecConstants { generate_samples: 512 };
    let p = build_graphics_pipeline(&s, &rp, modules, constants);
    assert_eq!(p.shaders, modules);
    assert_eq!(p.topology, PrimitiveTopology::LineStrip);
    assert!(!p.blend_enabled);
    assert_eq!(p.sample_count, 1);
    assert_eq!(p.viewport, Rect { x: 0, y: 0, width: 640, height: 480 });
    assert_eq!(p.scissor, Rect { x: 0, y: 0, width: 640, height: 480 });
    assert_eq!(p.descriptor_set_count, 0);
    assert_eq!(p.push_constant_bytes, 0);
    assert_eq!(p.vertex_spec_constants.generate_samples, 512);
    assert_eq!(p.color_format, 44);
}

#[test]
fn baked_buffers_hold_the_exact_replay_sequence() {
    let mesh = StandardMesh { vertex_buffer: 0, vertex_count: 512 };
    let baked = bake_frame_commands(2, &mesh);
    assert_eq!(baked.len(), 2);
    for (i, cb) in baked.iter().enumerate() {
        assert_eq!(
            cb.commands,
            vec![
                RenderCommand::BeginRenderPass {
                    framebuffer: i,
                    clear: ClearColor { red: 0, green: 0, blue: 0, alpha: 1 },
                },
                RenderCommand::BindPipeline,
                RenderCommand::BindVertexBuffer { binding: 0, buffer: 0 },
                RenderCommand::Draw { vertex_count: 512, instance_count: 1 },
                RenderCommand::EndRenderPass,
            ]
        );
    }
}

#[test]
fn baking_twice_yields_identical_content() {
    let mesh = StandardMesh { vertex_buffer: 4, vertex_count: 512 };
    let first = bake_frame_commands(3, &mesh);
    let second = bake_frame_commands(3, &mesh);
    assert_eq!(first.len(), second.len());
    for (a, b) in first.iter().zip(second.iter()) {
        assert_eq!(a.commands, b.commands);
    }
}
