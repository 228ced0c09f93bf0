use crate::cache::{AttributeSet, ProgramCache};
use crate::camera::Camera;
use crate::context::{lemma_extends_itself, lemma_extends_transitive, Context};
use crate::error::Error;
use crate::geometry::{missing_attribute, AxisAlignedBoundingBox, Geometry};
use crate::light::LightSet;
use crate::material::Material;
use vstd::pervasive::cloned;
use vstd::prelude::*;

verus! {

/// Something that can be drawn and that tells whether it is transparent.
pub trait Object {
    spec fn spec_is_transparent(&self) -> bool;

    /// Draws the object, in one draw call. No failure leaves a draw call
    /// behind.
    fn render(
        &self,
        camera: &Camera,
        lights: &LightSet,
        ctx: &mut Context,
        cache: &mut ProgramCache,
    ) -> (done: Result<(), Error>)
        ensures
            final(ctx)@.extends(old(ctx)@),
            done is Err ==> final(ctx)@.draws() == old(ctx)@.draws(),
            done is Ok ==> final(ctx)@.draws().len() == old(ctx)@.draws().len() + 1
                && final(ctx)@.draws().drop_last() == old(ctx)@.draws(),
    ;

    fn is_transparent(&self) -> (transparent: bool)
        ensures
            transparent == self.spec_is_transparent(),
    ;
}

/// A geometry with the material that it is drawn with.
pub struct Shape<G: Geometry, M: Material> {
    pub geometry: G,
    /// The material applied to the geometry
    pub material: M,
}

impl<G: Geometry, M: Material> Shape<G, M> {
    pub fn new(geometry: G, material: M) -> (shape: Self)
        ensures
            shape.geometry == geometry,
            shape.material == material,
    {
        Shape { geometry, material }
    }
}

impl<G: Geometry, M: Material> Geometry for Shape<G, M> {
    open spec fn spec_attributes(&self) -> AttributeSet {
        self.geometry.spec_attributes()
    }

    open spec fn spec_aabb(&self) -> AxisAlignedBoundingBox {
        self.geometry.spec_aabb()
    }

    fn attributes(&self) -> (supplied: AttributeSet) {
        self.geometry.attributes()
    }

    fn aabb(&self) -> (aabb: AxisAlignedBoundingBox) {
        self.geometry.aabb()
    }

    fn render_with_material<Mat: Material>(
        &self,
        material: &Mat,
        camera: &Camera,
        lights: &LightSet,
        ctx: &mut Context,
        cache: &mut ProgramCache,
    ) -> (done: Result<(), Error>) {
        self.geometry.render_with_material(material, camera, lights, ctx, cache)
    }
}

impl<G: Geometry, M: Material> Object for Shape<G, M> {
    open spec fn spec_is_transparent(&self) -> bool {
        self.material.spec_is_transparent()
    }

    /// Draws the geometry with the material of the shape. Where the
    /// material reads an input that the geometry does not supply, nothing is
    /// recorded and the error names the input.
    fn render(
        &self,
        camera: &Camera,
        lights: &LightSet,
        ctx: &mut Context,
        cache: &mut ProgramCache,
    ) -> (done: Result<(), Error>)
        ensures
            match missing_attribute(
                self.geometry.spec_attributes(),
                self.material.spec_required_attributes(),
            ) {
                Some(name) => done is Err && done->Err_0.is_missing(name) && final(ctx)@ == old(
                    ctx,
                )@ && final(cache)@ == old(cache)@,
                None => true,
            },
    {
        self.render_with_material(&self.material, camera, lights, ctx, cache)
    }

    fn is_transparent(&self) -> (transparent: bool) {
        self.material.is_transparent()
    }
}

impl<G: Geometry + Clone, M: Material + Clone> Clone for Shape<G, M> {
    fn clone(&self) -> (copy: Self)
        ensures
            cloned(self.geometry, copy.geometry),
            cloned(self.material, copy.material),
    {
        Self { geometry: self.geometry.clone(), material: self.material.clone() }
    }
}

impl<G: Geometry, M: Material> core::ops::Deref for Shape<G, M> {
    type Target = G;

    fn deref(&self) -> (geometry: &G)
        ensures
            *geometry == self.geometry,
    {
        &self.geometry
    }
}

/// The number of objects among `objects` that are not transparent.
pub open spec fn opaque_count(objects: Seq<&dyn Object>) -> nat
    decreases objects.len(),
{
    if objects.len() == 0 {
        0
    } else {
        opaque_count(objects.drop_last()) + if objects.last().spec_is_transparent() {
            0nat
        } else {
            1nat
        }
    }
}

/// Draws the objects that are not transparent, in order, one draw call
/// each. The first failure ends the pass: what follows is not drawn.
pub fn render_opaque(
    objects: &[&dyn Object],
    camera: &Camera,
    lights: &LightSet,
    ctx: &mut Context,
    cache: &mut ProgramCache,
) -> (done: Result<(), Error>)
    ensures
        final(ctx)@.extends(old(ctx)@),
        done is Ok ==> final(ctx)@.draws().len() == old(ctx)@.draws().len() + opaque_count(
            objects@,
        ),
        done is Err ==> final(ctx)@.draws().len() < old(ctx)@.draws().len() + opaque_count(
            objects@,
        ),
{
    proof {
        lemma_extends_itself(old(ctx)@);
    }
    let mut i: usize = 0;
    while i < objects.len()
        invariant
            i <= objects.len(),
            ctx@.extends(old(ctx)@),
            ctx@.draws().len() == old(ctx)@.draws().len() + opaque_count(objects@.take(i as int)),
        decreases objects.len() - i,
    {
        let object = objects[i];
        let ghost before = ctx@;
        proof {
            lemma_extends_itself(before);
            assert(objects@.take(i + 1).drop_last() =~= objects@.take(i as int));
            assert(objects@.take(i + 1).last() == objects@[i as int]);
            lemma_opaque_count_grows(objects@, i + 1);
        }
        if !object.is_transparent() {
            match object.render(camera, lights, ctx, cache) {
                Ok(()) => {},
                Err(e) => {
                    proof {
                        lemma_extends_transitive(old(ctx)@, before, ctx@);
                    }
                    return Err(e);
                },
            }
        }
        proof {
            lemma_extends_transitive(old(ctx)@, before, ctx@);
        }
        i += 1;
    }
    assert(objects@.take(objects.len() as int) =~= objects@);
    Ok(())
}

/// Among more objects there are no fewer opaque ones.
pub proof fn lemma_opaque_count_grows(objects: Seq<&dyn Object>, n: int)
    requires
        0 <= n <= objects.len(),
    ensures
        opaque_count(objects.take(n)) <= opaque_count(objects),
    decreases objects.len() - n,
{
    if n < objects.len() {
        assert(objects.take(n + 1).drop_last() =~= objects.take(n));
        lemma_opaque_count_grows(objects, n + 1);
    } else {
        assert(objects.take(n) =~= objects);
    }
}

} // verus!
