use crate::cache::{AttributeSet, ProgramCache};
use crate::camera::Camera;
use crate::context::Context;
use crate::error::Error;
use crate::light::LightSet;
use crate::material::Material;
use crate::math::Vec3;
use vstd::prelude::*;

verus! {

/// The name of the vertex input that takes the normals.
pub const NORMAL_ATTRIBUTE: &'static str = "normal";

/// The name of the vertex input that takes the uv coordinates.
pub const UV_ATTRIBUTE: &'static str = "uv_coordinates";

/// The box, along the axes, that a geometry lies in.
#[derive(Debug, Clone, Copy, PartialEq, Eq, Structural)]
pub struct AxisAlignedBoundingBox {
    pub min: Vec3,
    pub max: Vec3,
}

/// The name of the first input that is required and not supplied: the uv
/// coordinates are looked at before the normals.
pub open spec fn missing_attribute(supplied: AttributeSet, required: AttributeSet) -> Option<
    Seq<char>,
> {
    if required.uvs && !supplied.uvs {
        Some(UV_ATTRIBUTE@)
    } else if required.normals && !supplied.normals {
        Some(NORMAL_ATTRIBUTE@)
    } else {
        None
    }
}

/// Nothing is missing exactly when all that is required is supplied.
pub proof fn lemma_missing_attribute(supplied: AttributeSet, required: AttributeSet)
    ensures
        missing_attribute(supplied, required) is None <==> (required.uvs ==> supplied.uvs) && (
        required.normals ==> supplied.normals),
{
}

/// Checks that a geometry supplies what a shader reads.
pub fn check_attributes(supplied: AttributeSet, required: AttributeSet) -> (checked: Result<
    (),
    Error,
>)
    ensures
        match missing_attribute(supplied, required) {
            Some(name) => checked is Err && checked->Err_0.is_missing(name),
            None => checked is Ok,
        },
{
    if required.uvs && !supplied.uvs {
        Err(Error::missing_attribute(UV_ATTRIBUTE))
    } else if required.normals && !supplied.normals {
        Err(Error::missing_attribute(NORMAL_ATTRIBUTE))
    } else {
        Ok(())
    }
}

/// A shape that can be drawn with any material whose inputs it supplies.
pub trait Geometry {
    /// The vertex inputs that this geometry has buffers for, besides the
    /// position.
    spec fn spec_attributes(&self) -> AttributeSet;

    spec fn spec_aabb(&self) -> AxisAlignedBoundingBox;

    fn attributes(&self) -> (supplied: AttributeSet)
        ensures
            supplied == self.spec_attributes(),
    ;

    fn aabb(&self) -> (aabb: AxisAlignedBoundingBox)
        ensures
            aabb == self.spec_aabb(),
    ;

    /// Draws the geometry with `material`, in one draw call.
    ///
    /// Where the material reads an input that the geometry does not supply,
    /// nothing is recorded and the error names the input. No failure leaves
    /// a draw call behind.
    fn render_with_material<Mat: Material>(
        &self,
        material: &Mat,
        camera: &Camera,
        lights: &LightSet,
        ctx: &mut Context,
        cache: &mut ProgramCache,
    ) -> (done: Result<(), Error>)
        ensures
            match missing_attribute(self.spec_attributes(), material.spec_required_attributes()) {
                Some(name) => done is Err && done->Err_0.is_missing(name) && final(ctx)@ == old(
                    ctx,
                )@ && final(cache)@ == old(cache)@,
                None => true,
            },
            final(ctx)@.extends(old(ctx)@),
            done is Err ==> final(ctx)@.draws() == old(ctx)@.draws(),
            done is Ok ==> final(ctx)@.draws().len() == old(ctx)@.draws().len() + 1
                && final(ctx)@.draws().drop_last() == old(ctx)@.draws(),
    ;
}

} // verus!
