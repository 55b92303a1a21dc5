//! The lamp that lights the scene.

use super::VertexAttribute;
use crate::descriptor::{
    lemma_packed_is_well_formed, InputStepMode, VertexAttributeDescriptor,
    VertexBufferDescriptor, VertexBufferLayout, VertexFormat,
};
use vstd::prelude::*;

verus! {

/// A vertex of the lamp: a position, three 32-bit reals held by their bit
/// patterns.
#[derive(Clone, Copy, Debug)]
pub struct LampVertex {
    pub position: [u32; 3],
}

impl VertexAttribute for LampVertex {
    /// One vertex is its position and nothing else, fed to shader input 0.
    fn description() -> (description: VertexBufferDescriptor)
        ensures
            description.stride == 12,
            description.step_mode == InputStepMode::Vertex,
            description.attributes@ == seq![
                VertexAttributeDescriptor {
                    offset: 0,
                    shader_location: 0,
                    format: VertexFormat::Float3,
                },
            ],
            description@.packed(),
            description@.well_formed(),
    {
        let position = VertexFormat::Float3;
        let description = VertexBufferDescriptor {
            stride: position.size(),
            step_mode: InputStepMode::Vertex,
            attributes: vec![
                VertexAttributeDescriptor { offset: 0, shader_location: 0, format: position },
            ],
        };
        proof {
            reveal_with_fuel(VertexBufferLayout::size_of_first, 2);
            lemma_packed_is_well_formed(description@);
        }
        description
    }
}

/// The lamp.
pub struct Lamp {}

} // verus!
