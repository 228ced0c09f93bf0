use crate::context::{BufferId, Viewport};
use crate::math::Mat4;
use vstd::prelude::*;

verus! {

/// The point of view of a pass: the part of the render target it covers and
/// the uniform buffer that holds its matrices.
#[derive(Debug, Clone, Copy, PartialEq, Eq, Structural)]
pub struct Camera {
    pub viewport: Viewport,
    pub matrices: BufferId,
}

impl Camera {
    pub fn new(viewport: Viewport, matrices: BufferId) -> (camera: Camera)
        ensures
            camera == (Camera { viewport, matrices }),
    {
        Camera { viewport, matrices }
    }

    /// The uniform buffer that the shaders read the camera from.
    pub fn matrix_buffer(&self) -> (buffer: BufferId)
        ensures
            buffer == self.matrices,
    {
        self.matrices
    }

    pub fn viewport(&self) -> (viewport: Viewport)
        ensures
            viewport == self.viewport,
    {
        self.viewport
    }
}

/// Where a geometry stands in the world.
#[derive(Debug, Clone, Copy, PartialEq, Eq, Structural)]
pub struct Transformation {
    /// Takes positions from the geometry's space to the world's.
    pub model: Mat4,
    /// Takes normals along: the transpose of the inverse of `model`, which
    /// the caller works out.
    pub normal: Mat4,
}

impl Transformation {
    pub open spec fn spec_identity() -> Transformation {
        Transformation { model: Mat4::spec_identity(), normal: Mat4::spec_identity() }
    }

    /// Leaves the geometry where it is.
    #[verifier::when_used_as_spec(spec_identity)]
    pub fn identity() -> (t: Transformation)
        ensures
            t == Transformation::spec_identity(),
    {
        Transformation { model: Mat4::identity(), normal: Mat4::identity() }
    }

    pub fn new(model: Mat4, normal: Mat4) -> (t: Transformation)
        ensures
            t == (Transformation { model, normal }),
    {
        Transformation { model, normal }
    }
}

} // verus!
