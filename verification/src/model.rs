//! A textured model.

use crate::buffer::{
    flatten_words, index_bytes, ints16, ints32, lemma_flatten_words_len, native_endian,
    vertex_bytes,
};
use crate::descriptor::RenderPipelineDescriptor;
use crate::renderer::texture::Texture;
use vstd::prelude::*;

pub mod mesh;
pub mod transform;

pub use mesh::Mesh;
pub use mesh::Vertex;
pub use transform::Transform;

verus! {

/// A model as the renderer needs it: where it stands, its mesh, the
/// descriptions of its pipeline and texture, and the contents of its vertex
/// and index buffers.
#[derive(Debug)]
pub struct Model {
    pub transform: Transform,
    pub mesh: Mesh,
    pub pipeline: RenderPipelineDescriptor,
    pub vertex_buffer: Vec<u8>,
    pub index_buffer: Vec<u8>,
    pub num_indices: u32,
    pub texture: Texture,
}

impl Model {
    /// A model of the given parts.
    ///
    /// The two buffers hold the vertices and the indices of the mesh as
    /// they lie in memory. The number of indices is kept in 32 bits: of a
    /// larger count only the low 32 bits remain.
    pub fn new(
        transform: Transform,
        mesh: Mesh,
        pipeline: RenderPipelineDescriptor,
        texture: Texture,
    ) -> (model: Model)
        ensures
            model.transform == transform,
            model.mesh == mesh,
            model.pipeline == pipeline,
            model.texture == texture,
            native_endian(model.vertex_buffer@, ints32(flatten_words(mesh.vertices@)), 4),
            model.vertex_buffer@.len() == 20 * mesh.vertices@.len(),
            native_endian(model.index_buffer@, ints16(mesh.indices@), 2),
            model.index_buffer@.len() == 2 * mesh.indices@.len(),
            model.num_indices == mesh.indices@.len() % 0x1_0000_0000,
    {
        let vertex_buffer = create_vertex_buffer(&mesh.vertices);
        let index_buffer = create_index_buffer(&mesh.indices);
        let len = mesh.indices.len();
        let num_indices = #[verifier::truncate] (len as u32);
        proof {
            let wide = len as u64;
            assert(len as u32 == wide as u32) by (bit_vector)
                requires
                    wide == len as u64,
            ;
            assert(wide as u32 == wide % 0x1_0000_0000) by (bit_vector);
            lemma_flatten_words_len(mesh.vertices@, 5);
        }
        Model { transform, mesh, pipeline, vertex_buffer, index_buffer, num_indices, texture }
    }
}

fn create_vertex_buffer(vertices: &Vec<Vertex>) -> (bytes: Vec<u8>)
    ensures
        native_endian(bytes@, ints32(flatten_words(vertices@)), 4),
        bytes@.len() == 4 * flatten_words(vertices@).len(),
{
    vertex_bytes(vertices)
}

fn create_index_buffer(indices: &Vec<u16>) -> (bytes: Vec<u8>)
    ensures
        native_endian(bytes@, ints16(indices@), 2),
        bytes@.len() == 2 * indices@.len(),
{
    index_bytes(indices)
}

} // verus!
