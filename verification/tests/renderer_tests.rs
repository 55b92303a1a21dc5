use cube_renderer::bits::{HUNDRED, MINUS_ONE, ONE, ZERO};
use cube_renderer::descriptor::{
    BlendDescriptor, BlendFactor, BlendOperation, Color, ColorWrite, CullMode, FrontFace,
    IndexFormat, InputStepMode, LoadOp, PresentMode, PrimitiveTopology, ShaderType, StoreOp,
    TextureFormat, VertexAttributeDescriptor, VertexBufferDescriptor, VertexFormat,
};
use cube_renderer::objects::Cube;
use cube_renderer::renderer::pipeline::create_pipeline;
use cube_renderer::renderer::{PhysicalSize, RenderCommand, Renderer};

fn renderer() -> Renderer {
    Renderer::new(PhysicalSize { width: 800, height: 600 }, [ONE, ZERO, MINUS_ONE, HUNDRED])
}

fn layout() -> VertexBufferDescriptor {
    VertexBufferDescriptor {
        stride: 8,
        step_mode: InputStepMode::Instance,
        attributes: vec![VertexAttributeDescriptor {
            offset: 0,
            shader_location: 3,
            format: VertexFormat::Float2,
        }],
    }
}

#[test]
fn new_renderer_has_a_swap_chain_of_the_surface_size() {
    let renderer = renderer();
    assert_eq!(renderer.size(), PhysicalSize { width: 800, height: 600 });
    let sc_desc = renderer.sc_desc();
    assert_eq!(sc_desc.width, 800);
    assert_eq!(sc_desc.height, 600);
    assert_eq!(sc_desc.format, TextureFormat::Bgra8UnormSrgb);
    assert_eq!(sc_desc.present_mode, PresentMode::Immediate);
    assert!(sc_desc.usage.output_attachment);
    assert!(!sc_desc.usage.copy_src);
    assert!(!sc_desc.usage.copy_dst);
    assert!(!sc_desc.usage.sampled);
    assert!(!sc_desc.usage.storage);
}

#[test]
fn new_renderer_keeps_the_background_colour() {
    assert_eq!(renderer().bg_color(), Color { r: ONE, g: ZERO, b: MINUS_ONE, a: HUNDRED });
}

#[test]
fn resize_changes_size_and_swap_chain_only() {
    let mut renderer = renderer();
    let before = renderer.sc_desc();
    renderer.resize(PhysicalSize { width: 1024, height: 1 });
    assert_eq!(renderer.size(), PhysicalSize { width: 1024, height: 1 });
    let after = renderer.sc_desc();
    assert_eq!(after.width, 1024);
    assert_eq!(after.height, 1);
    assert_eq!(after.format, before.format);
    assert_eq!(after.usage, before.usage);
    assert_eq!(after.present_mode, before.present_mode);
    assert_eq!(renderer.bg_color(), Color { r: ONE, g: ZERO, b: MINUS_ONE, a: HUNDRED });
}

#[test]
fn resize_to_nothing() {
    let mut renderer = renderer();
    renderer.resize(PhysicalSize { width: 0, height: 0 });
    assert_eq!(renderer.size(), PhysicalSize { width: 0, height: 0 });
    assert_eq!(renderer.sc_desc().width, 0);
    assert_eq!(renderer.sc_desc().height, 0);
}

#[test]
fn first_frame_clears_and_draws_nothing() {
    let mut renderer = renderer();
    let frame = renderer.init_clear_screen();
    let targets = frame.descriptor();
    assert_eq!(targets.color_attachments.len(), 1);
    let attachment = targets.color_attachments[0];
    assert!(!attachment.resolve_target);
    assert_eq!(attachment.load_op, LoadOp::Clear);
    assert_eq!(attachment.store_op, StoreOp::Store);
    assert_eq!(attachment.clear_color, Color { r: ONE, g: ZERO, b: MINUS_ONE, a: HUNDRED });
    assert!(!targets.depth_stencil_attachment);
    assert!(frame.commands().is_empty());
}

#[test]
fn frame_draws_the_cube_once() {
    let mut renderer = renderer();
    let cube = Cube::new(&renderer);
    let frame = renderer.render(&cube);
    assert_eq!(
        frame.commands(),
        &vec![
            RenderCommand::SetPipeline,
            RenderCommand::SetVertexBuffer { slot: 0, offset: 0, size: 0 },
            RenderCommand::SetIndexBuffer { offset: 0, size: 0 },
            RenderCommand::DrawIndexed {
                first_index: 0,
                end_index: 6,
                base_vertex: 0,
                first_instance: 0,
                end_instance: 1,
            },
        ]
    );
    let targets = frame.descriptor();
    assert_eq!(targets.color_attachments.len(), 1);
    assert_eq!(targets.color_attachments[0].load_op, LoadOp::Clear);
    assert_eq!(
        targets.color_attachments[0].clear_color,
        Color { r: ONE, g: ZERO, b: MINUS_ONE, a: HUNDRED }
    );
    assert_eq!(renderer.size(), PhysicalSize { width: 800, height: 600 });
}

#[test]
fn frame_draws_as_many_indices_as_the_cube_has() {
    let mut renderer = renderer();
    let mut cube = Cube::new(&renderer);
    cube.num_indices = 3;
    let frame = renderer.render(&cube);
    assert_eq!(
        frame.commands()[3],
        RenderCommand::DrawIndexed {
            first_index: 0,
            end_index: 3,
            base_vertex: 0,
            first_instance: 0,
            end_instance: 1,
        }
    );
}

#[test]
fn pipeline_description() {
    let pipeline = create_pipeline("a.vert", "b.frag", layout(), TextureFormat::Rgba8Unorm);
    assert_eq!(pipeline.bind_group_layouts, 0);
    assert_eq!(pipeline.vertex_stage.source, "a.vert");
    assert_eq!(pipeline.vertex_stage.shader_type, ShaderType::Vertex);
    assert_eq!(pipeline.vertex_stage.entry_point, "main");
    let fragment = pipeline.fragment_stage.as_ref().unwrap();
    assert_eq!(fragment.source, "b.frag");
    assert_eq!(fragment.shader_type, ShaderType::Fragment);
    assert_eq!(fragment.entry_point, "main");
    let raster = pipeline.rasterization_state.unwrap();
    assert_eq!(raster.front_face, FrontFace::Ccw);
    assert_eq!(raster.cull_mode, CullMode::Back);
    assert_eq!(raster.depth_bias, 0);
    assert_eq!(f32::from_bits(raster.depth_bias_slope_scale), 0.0);
    assert_eq!(f32::from_bits(raster.depth_bias_clamp), 0.0);
    assert_eq!(pipeline.primitive_topology, PrimitiveTopology::TriangleList);
    assert_eq!(pipeline.color_states.len(), 1);
    let replace = BlendDescriptor {
        src_factor: BlendFactor::One,
        dst_factor: BlendFactor::Zero,
        operation: BlendOperation::Add,
    };
    assert_eq!(pipeline.color_states[0].format, TextureFormat::Rgba8Unorm);
    assert_eq!(pipeline.color_states[0].color_blend, replace);
    assert_eq!(pipeline.color_states[0].alpha_blend, replace);
    assert_eq!(
        pipeline.color_states[0].write_mask,
        ColorWrite { red: true, green: true, blue: true, alpha: true }
    );
    assert!(!pipeline.depth_stencil_state);
    assert_eq!(pipeline.vertex_state.index_format, IndexFormat::Uint16);
    assert_eq!(pipeline.vertex_state.vertex_buffers.len(), 1);
    let buffer = &pipeline.vertex_state.vertex_buffers[0];
    assert_eq!(buffer.stride, 8);
    assert_eq!(buffer.step_mode, InputStepMode::Instance);
    assert_eq!(
        buffer.attributes,
        vec![VertexAttributeDescriptor {
            offset: 0,
            shader_location: 3,
            format: VertexFormat::Float2
        }]
    );
    assert_eq!(pipeline.sample_count, 1);
    assert_eq!(pipeline.sample_mask, 0xFFFF_FFFF);
    assert!(!pipeline.alpha_to_coverage_enabled);
}

#[test]
fn renderer_pipeline_targets_the_swap_chain_format() {
    let pipeline = renderer().create_pipeline("v", "f", layout());
    assert_eq!(pipeline.color_states[0].format, TextureFormat::Bgra8UnormSrgb);
    assert_eq!(pipeline.vertex_stage.source, "v");
    assert_eq!(pipeline.fragment_stage.as_ref().unwrap().source, "f");
}

#[test]
fn blend_and_mask_constants() {
    assert_eq!(
        BlendDescriptor::replace(),
        BlendDescriptor {
            src_factor: BlendFactor::One,
            dst_factor: BlendFactor::Zero,
            operation: BlendOperation::Add,
        }
    );
    assert_eq!(ColorWrite::all(), ColorWrite { red: true, green: true, blue: true, alpha: true });
}
