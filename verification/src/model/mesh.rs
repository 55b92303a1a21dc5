//! The mesh of a textured model.

use crate::buffer::Pod;
use crate::descriptor::{
    lemma_packed_is_well_formed, InputStepMode, VertexAttributeDescriptor,
    VertexBufferDescriptor, VertexBufferLayout, VertexFormat,
};
use vstd::prelude::*;

verus! {

/// A vertex of a textured model: a position and a texture coordinate, three
/// and two 32-bit reals held by their bit patterns.
#[derive(Clone, Copy, Debug)]
pub struct Vertex {
    pub position: [u32; 3],
    pub tex_coords: [u32; 2],
}

/// The layout of a buffer of [`Vertex`]: position then texture coordinate,
/// 20 bytes in all.
pub open spec fn vertex_layout() -> VertexBufferLayout {
    VertexBufferLayout {
        stride: 20,
        step_mode: InputStepMode::Vertex,
        attributes: seq![
            VertexAttributeDescriptor {
                offset: 0,
                shader_location: 0,
                format: VertexFormat::Float3,
            },
            VertexAttributeDescriptor {
                offset: 12,
                shader_location: 1,
                format: VertexFormat::Float2,
            },
        ],
    }
}

impl Vertex {
    /// One vertex is its position, fed to shader input 0, followed by its
    /// texture coordinate, fed to shader input 1.
    pub fn description() -> (description: VertexBufferDescriptor)
        ensures
            description@ == vertex_layout(),
            description@.packed(),
            description@.well_formed(),
    {
        let position = VertexFormat::Float3;
        let tex_coords = VertexFormat::Float2;
        let description = VertexBufferDescriptor {
            stride: position.size() + tex_coords.size(),
            step_mode: InputStepMode::Vertex,
            attributes: vec![
                VertexAttributeDescriptor { offset: 0, shader_location: 0, format: position },
                VertexAttributeDescriptor {
                    offset: position.size(),
                    shader_location: 1,
                    format: tex_coords,
                },
            ],
        };
        proof {
            assert(description.attributes@ =~= vertex_layout().attributes);
            reveal_with_fuel(VertexBufferLayout::size_of_first, 3);
            lemma_packed_is_well_formed(description@);
        }
        description
    }
}

impl Pod for Vertex {
    open spec fn spec_words(&self) -> Seq<u32> {
        self.position@ + self.tex_coords@
    }

    fn words(&self) -> (words: Vec<u32>) {
        let words = vec![
            self.position[0],
            self.position[1],
            self.position[2],
            self.tex_coords[0],
            self.tex_coords[1],
        ];
        proof {
            assert(words@ =~= self.position@ + self.tex_coords@);
        }
        words
    }
}

/// Vertices and the indices that pick them, three for each triangle.
#[derive(Debug)]
pub struct Mesh {
    pub vertices: Vec<Vertex>,
    pub indices: Vec<u16>,
}

impl Mesh {
    /// A mesh of the given vertices and indices.
    pub fn new(vertices: Vec<Vertex>, indices: Vec<u16>) -> (mesh: Mesh)
        ensures
            mesh.vertices == vertices,
            mesh.indices == indices,
    {
        Mesh { vertices, indices }
    }
}

} // verus!
