//! Where a model stands.

use crate::bits::{ONE, ZERO};
use vstd::prelude::*;

verus! {

/// Position, orientation and scale of a model. The position and the scale
/// have the components x, y, z; the orientation is a quaternion with the
/// components x, y, z, w. Each component is a 32-bit real held by its bit
/// pattern.
#[derive(Debug)]
pub struct Transform {
    position: [u32; 3],
    orientation: [u32; 4],
    scale: [u32; 3],
}

/// The components of `glam`'s `Vec3::zero()`: all three are zero.
#[verifier::external_body]
fn zero_vector() -> (components: [u32; 3])
    ensures
        components@ == seq![ZERO, ZERO, ZERO],
{
    let v = glam::Vec3::zero();
    [v.x().to_bits(), v.y().to_bits(), v.z().to_bits()]
}

/// The components of `glam`'s `Vec3::one()`: all three are one.
#[verifier::external_body]
fn one_vector() -> (components: [u32; 3])
    ensures
        components@ == seq![ONE, ONE, ONE],
{
    let v = glam::Vec3::one();
    [v.x().to_bits(), v.y().to_bits(), v.z().to_bits()]
}

/// The components of `glam`'s `Quat::identity()`: x, y and z are zero and
/// w is one.
#[verifier::external_body]
fn identity_quaternion() -> (components: [u32; 4])
    ensures
        components@ == seq![ZERO, ZERO, ZERO, ONE],
{
    let q = glam::Quat::identity();
    [q.x().to_bits(), q.y().to_bits(), q.z().to_bits(), q.w().to_bits()]
}

impl Transform {
    /// The position.
    pub closed spec fn spec_position(&self) -> Seq<u32> {
        self.position@
    }

    /// The orientation.
    pub closed spec fn spec_orientation(&self) -> Seq<u32> {
        self.orientation@
    }

    /// The scale.
    pub closed spec fn spec_scale(&self) -> Seq<u32> {
        self.scale@
    }

    /// The position.
    pub fn position(&self) -> (position: [u32; 3])
        ensures
            position@ == self.spec_position(),
    {
        self.position
    }

    /// The orientation.
    pub fn orientation(&self) -> (orientation: [u32; 4])
        ensures
            orientation@ == self.spec_orientation(),
    {
        self.orientation
    }

    /// The scale.
    pub fn scale(&self) -> (scale: [u32; 3])
        ensures
            scale@ == self.spec_scale(),
    {
        self.scale
    }
}

impl Default for Transform {
    /// At the origin, not turned, at unit scale.
    fn default() -> (transform: Self)
        ensures
            transform.spec_position() == seq![ZERO, ZERO, ZERO],
            transform.spec_orientation() == seq![ZERO, ZERO, ZERO, ONE],
            transform.spec_scale() == seq![ONE, ONE, ONE],
    {
        Transform {
            position: zero_vector(),
            orientation: identity_quaternion(),
            scale: one_vector(),
        }
    }
}

} // verus!
