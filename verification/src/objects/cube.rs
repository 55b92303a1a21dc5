//! The coloured cube.

use super::{Mesh, VertexAttribute};
use crate::bits::{MINUS_ONE, ONE, ZERO};
use crate::buffer::{
    flatten_words, index_bytes, ints16, ints32, lemma_flatten_words_len, native_endian,
    vertex_bytes, Pod,
};
use crate::descriptor::{
    lemma_packed_is_well_formed, InputStepMode, RenderPipelineDescriptor, TextureFormat,
    VertexAttributeDescriptor, VertexBufferDescriptor, VertexBufferLayout, VertexFormat,
};
use crate::renderer::pipeline::pipeline_for;
use crate::renderer::Renderer;
use vstd::prelude::*;

verus! {

/// The cube as the renderer needs it: its mesh, the description of its
/// pipeline, and the contents of its vertex and index buffers.
#[derive(Debug)]
pub struct Cube {
    pub mesh: Mesh<CubeVertex>,
    pub pipeline: RenderPipelineDescriptor,
    pub vertex_buffer: Vec<u8>,
    pub index_buffer: Vec<u8>,
    pub num_indices: u32,
}

/// The layout of a buffer of [`CubeVertex`]: position then colour, 24 bytes
/// in all.
pub open spec fn cube_vertex_layout() -> VertexBufferLayout {
    VertexBufferLayout {
        stride: 24,
        step_mode: InputStepMode::Vertex,
        attributes: seq![
            VertexAttributeDescriptor {
                offset: 0,
                shader_location: 0,
                format: VertexFormat::Float3,
            },
            VertexAttributeDescriptor {
                offset: 12,
                shader_location: 1,
                format: VertexFormat::Float3,
            },
        ],
    }
}

impl Cube {
    /// The cube as it is drawn into a target of the given format.
    ///
    /// Its mesh is the cube mesh and its pipeline runs the Phong shaders
    /// over vertices in the layout of [`CubeVertex`]. The two buffers hold
    /// the vertices and the indices of the mesh as they lie in memory, so
    /// the vertex buffer has one stride of that layout for each vertex.
    pub open spec fn built_for(&self, format: TextureFormat) -> bool {
        &&& self.mesh.vertices@ == cube_vertices()
        &&& self.mesh.indices@ == cube_indices()
        &&& self.pipeline@ == pipeline_for(
            "./resources/shaders/phong.vert"@,
            "./resources/shaders/phong.frag"@,
            cube_vertex_layout(),
            format,
        )
        &&& native_endian(self.vertex_buffer@, ints32(flatten_words(cube_vertices())), 4)
        &&& native_endian(self.index_buffer@, ints16(cube_indices()), 2)
        &&& self.vertex_buffer@.len() == cube_vertex_layout().stride * cube_vertices().len()
        &&& self.index_buffer@.len() == 2 * self.num_indices
        &&& self.num_indices == cube_indices().len()
    }

    /// The cube, drawn into the swap chain of `renderer`.
    pub fn new(renderer: &Renderer) -> (cube: Cube)
        ensures
            cube.built_for(renderer.spec_sc_desc().format),
    {
        let vert_path = "./resources/shaders/phong.vert";
        let frag_path = "./resources/shaders/phong.frag";

        let mesh = create_cube_mesh();

        let pipeline = renderer.create_pipeline(vert_path, frag_path, CubeVertex::description());

        let vertex_buffer = vertex_bytes(&mesh.vertices);
        let index_buffer = index_bytes(&mesh.indices);

        let num_indices = mesh.indices.len() as u32;

        proof {
            lemma_flatten_words_len(mesh.vertices@, 6);
        }

        Cube { mesh, pipeline, vertex_buffer, index_buffer, num_indices }
    }
}

/// A vertex of the cube: a position and a colour, each three 32-bit reals
/// held by their bit patterns.
#[derive(Clone, Copy, Debug)]
pub struct CubeVertex {
    pub position: [u32; 3],
    pub color: [u32; 3],
}

impl Pod for CubeVertex {
    open spec fn spec_words(&self) -> Seq<u32> {
        self.position@ + self.color@
    }

    fn words(&self) -> (words: Vec<u32>) {
        let words = vec![
            self.position[0],
            self.position[1],
            self.position[2],
            self.color[0],
            self.color[1],
            self.color[2],
        ];
        proof {
            assert(words@ =~= self.position@ + self.color@);
        }
        words
    }
}

fn cube_vertex(position: [u32; 3], color: [u32; 3]) -> (vertex: CubeVertex)
    ensures
        vertex == (CubeVertex { position, color }),
{
    CubeVertex { position, color }
}

impl VertexAttribute for CubeVertex {
    /// One vertex is its position, fed to shader input 0, followed by its
    /// colour, fed to shader input 1.
    fn description() -> (description: VertexBufferDescriptor)
        ensures
            description@ == cube_vertex_layout(),
            description@.packed(),
            description@.well_formed(),
    {
        let position = VertexFormat::Float3;
        let color = VertexFormat::Float3;
        let description = VertexBufferDescriptor {
            stride: position.size() + color.size(),
            step_mode: InputStepMode::Vertex,
            attributes: vec![
                VertexAttributeDescriptor { offset: 0, shader_location: 0, format: position },
                VertexAttributeDescriptor {
                    offset: position.size(),
                    shader_location: 1,
                    format: color,
                },
            ],
        };
        proof {
            assert(description.attributes@ =~= cube_vertex_layout().attributes);
            reveal_with_fuel(VertexBufferLayout::size_of_first, 3);
            lemma_packed_is_well_formed(description@);
        }
        description
    }
}

/// The four corners of the front face: top right in red, bottom right in
/// green, bottom left in blue, top left in magenta.
pub open spec fn cube_vertices() -> Seq<CubeVertex> {
    seq![
        CubeVertex { position: [ONE, ONE, ZERO], color: [ONE, ZERO, ZERO] },
        CubeVertex { position: [ONE, MINUS_ONE, ZERO], color: [ZERO, ONE, ZERO] },
        CubeVertex { position: [MINUS_ONE, MINUS_ONE, ZERO], color: [ZERO, ZERO, ONE] },
        CubeVertex { position: [MINUS_ONE, ONE, ZERO], color: [ONE, ZERO, ONE] },
    ]
}

/// The two triangles of the front face, which share the diagonal from top
/// right to bottom left.
pub open spec fn cube_indices() -> Seq<u16> {
    seq![0, 1, 2, 0, 2, 3]
}

/// The mesh of the cube.
pub fn create_cube_mesh() -> (mesh: Mesh<CubeVertex>)
    ensures
        mesh.vertices@ == cube_vertices(),
        mesh.indices@ == cube_indices(),
        mesh.indices_in_range(),
{
    let front_face = vec![
        cube_vertex([ONE, ONE, ZERO], [ONE, ZERO, ZERO]),
        cube_vertex([ONE, MINUS_ONE, ZERO], [ZERO, ONE, ZERO]),
        cube_vertex([MINUS_ONE, MINUS_ONE, ZERO], [ZERO, ZERO, ONE]),
        cube_vertex([MINUS_ONE, ONE, ZERO], [ONE, ZERO, ONE]),
    ];

    let indices: Vec<u16> = vec![0, 1, 2, 0, 2, 3];

    proof {
        assert(front_face@ =~= cube_vertices());
        assert(indices@ =~= cube_indices());
    }

    Mesh::new(front_face, indices)
}

} // verus!
