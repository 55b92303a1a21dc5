//! The objects of the scene.

use crate::renderer::RenderPass;
use vstd::prelude::*;

pub mod cube;
pub mod lamp;
pub mod mesh;

pub use cube::Cube;
pub use mesh::Mesh;
pub use mesh::VertexAttribute;

verus! {

/// Something that can be drawn and that changes from frame to frame.
pub trait Object {
    /// Records into `render_pass` the commands that draw the object.
    fn render(&self, render_pass: &mut RenderPass);

    /// Advances the object by one frame.
    fn update(&mut self);
}

} // verus!
