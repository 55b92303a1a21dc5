//! The render pipeline of the scene.

use crate::descriptor::{
    BlendDescriptor, ColorStateDescriptor, ColorWrite, CullMode, FrontFace, IndexFormat,
    PrimitiveTopology, ProgrammableStage, ProgrammableStageDescriptor,
    RasterizationStateDescriptor, RenderPipeline, RenderPipelineDescriptor, ShaderType,
    TextureFormat, VertexBufferDescriptor, VertexBufferLayout, VertexState,
    VertexStateDescriptor,
};
use vstd::prelude::*;

verus! {

/// The pipeline that draws indexed triangle lists from one vertex buffer
/// into one colour target.
///
/// The shader at `vert_file` runs as the vertex stage and the one at
/// `frag_file` as the fragment stage, both entered at `main`. Triangles wind
/// counter-clockwise and their back faces are culled; fragments overwrite
/// the target in all four channels; there is no depth test, no
/// multisampling and no bind group.
pub open spec fn pipeline_for(
    vert_file: Seq<char>,
    frag_file: Seq<char>,
    vertex_buffer: VertexBufferLayout,
    format: TextureFormat,
) -> RenderPipeline {
    RenderPipeline {
        bind_group_layouts: 0,
        vertex_stage: ProgrammableStage {
            source: vert_file,
            shader_type: ShaderType::Vertex,
            entry_point: "main"@,
        },
        fragment_stage: Some(
            ProgrammableStage {
                source: frag_file,
                shader_type: ShaderType::Fragment,
                entry_point: "main"@,
            },
        ),
        rasterization_state: Some(
            RasterizationStateDescriptor {
                front_face: FrontFace::Ccw,
                cull_mode: CullMode::Back,
                depth_bias: 0,
                depth_bias_slope_scale: 0,
                depth_bias_clamp: 0,
            },
        ),
        primitive_topology: PrimitiveTopology::TriangleList,
        color_states: seq![
            ColorStateDescriptor {
                format,
                color_blend: BlendDescriptor::spec_replace(),
                alpha_blend: BlendDescriptor::spec_replace(),
                write_mask: ColorWrite::spec_all(),
            },
        ],
        depth_stencil_state: false,
        vertex_state: VertexState {
            index_format: IndexFormat::Uint16,
            vertex_buffers: seq![vertex_buffer],
        },
        sample_count: 1,
        sample_mask: u32::MAX,
        alpha_to_coverage_enabled: false,
    }
}

/// Describes the pipeline for the two shader files, the vertex layout and
/// the format of the colour target.
pub fn create_pipeline(
    vert_file: &str,
    frag_file: &str,
    vertex_buffer_descriptor: VertexBufferDescriptor,
    format: TextureFormat,
) -> (pipeline: RenderPipelineDescriptor)
    ensures
        pipeline@ == pipeline_for(vert_file@, frag_file@, vertex_buffer_descriptor@, format),
{
    let vertex_stage = ProgrammableStageDescriptor {
        source: vert_file.to_owned(),
        shader_type: ShaderType::Vertex,
        entry_point: "main".to_owned(),
    };
    let fragment_stage = ProgrammableStageDescriptor {
        source: frag_file.to_owned(),
        shader_type: ShaderType::Fragment,
        entry_point: "main".to_owned(),
    };
    let color_states = vec![
        ColorStateDescriptor {
            format,
            color_blend: BlendDescriptor::replace(),
            alpha_blend: BlendDescriptor::replace(),
            write_mask: ColorWrite::all(),
        },
    ];
    let ghost layout = vertex_buffer_descriptor@;
    let vertex_buffers = vec![vertex_buffer_descriptor];
    let pipeline = RenderPipelineDescriptor {
        bind_group_layouts: 0,
        vertex_stage,
        fragment_stage: Some(fragment_stage),
        rasterization_state: Some(
            RasterizationStateDescriptor {
                front_face: FrontFace::Ccw,
                cull_mode: CullMode::Back,
                depth_bias: 0,
                depth_bias_slope_scale: 0,
                depth_bias_clamp: 0,
            },
        ),
        primitive_topology: PrimitiveTopology::TriangleList,
        color_states,
        depth_stencil_state: false,
        vertex_state: VertexStateDescriptor { index_format: IndexFormat::Uint16, vertex_buffers },
        sample_count: 1,
        sample_mask: !0,
        alpha_to_coverage_enabled: false,
    };
    proof {
        assert(pipeline.vertex_state@.vertex_buffers =~= seq![layout]);
        assert(pipeline.color_states@ =~= pipeline_for(
            vert_file@,
            frag_file@,
            layout,
            format,
        ).color_states);
        assert(!0u32 == u32::MAX) by (bit_vector);
    }
    pipeline
}

} // verus!
