//! Indexed triangle meshes.

use crate::descriptor::VertexBufferDescriptor;
use vstd::prelude::*;

verus! {

/// Vertices and the indices that pick them, three for each triangle.
#[derive(Debug)]
pub struct Mesh<T> {
    pub vertices: Vec<T>,
    pub indices: Vec<u16>,
}

impl<T> Mesh<T> {
    /// Every index picks a vertex of the mesh.
    pub open spec fn indices_in_range(&self) -> bool {
        forall|i: int| 0 <= i < self.indices@.len() ==> self.indices@[i] < self.vertices@.len()
    }

    /// A mesh of the given vertices and indices.
    pub fn new(vertices: Vec<T>, indices: Vec<u16>) -> (mesh: Mesh<T>)
        ensures
            mesh.vertices == vertices,
            mesh.indices == indices,
    {
        Mesh { vertices, indices }
    }
}

/// A vertex type that knows how it lies in a vertex buffer.
pub trait VertexAttribute {
    /// The layout of a buffer of such vertices.
    fn description() -> VertexBufferDescriptor;
}

} // verus!
