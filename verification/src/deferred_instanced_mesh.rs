use crate::cache::{
    cache_after_release, cache_after_request, context_after_release, context_after_request,
    request_succeeds, AttributeSet, CacheView, ProgramCache, ProgramHandle, ProgramHandleView,
    Signature,
};
use crate::camera::{Camera, Transformation};
use crate::context::{
    lemma_record_one, CommandView, Context, ContextView, ProgramId, RenderStates, Viewport,
};
use crate::error::Error;
use crate::geometry::{check_attributes, missing_attribute, Geometry, NORMAL_ATTRIBUTE};
use crate::instanced_mesh::{
    lemma_instanced_render_draws_once, InstancedMesh, InstancedMeshView,
};
use crate::program::MeshProgramView;
use crate::material::{lemma_deferred_source_inputs, Material, PhongMaterial};
use crate::math::Mat4;
use crate::mesh::{creation_steps, CPUMesh};
use vstd::prelude::*;

verus! {

/// What an instanced Phong mesh is.
pub struct PhongDeferredInstancedMeshView {
    pub name: Seq<char>,
    pub mesh: InstancedMeshView,
    pub material: PhongMaterial,
    /// The handle to the program that the mesh was last drawn with.
    pub program: Option<ProgramHandleView>,
}

/// The outcome of making the program of a mesh ready.
pub struct Prepared {
    /// The handle that the mesh holds afterwards.
    pub program: Option<ProgramHandleView>,
    pub cache: CacheView,
    pub ctx: ContextView,
}

impl PhongDeferredInstancedMeshView {
    /// The key of the program that draws the mesh with its material.
    pub open spec fn signature(self) -> Signature {
        Signature {
            material: self.material.color_source.spec_kind(),
            attributes: self.mesh.mesh.attributes(),
            instanced: true,
        }
    }

    /// Whether the mesh holds a handle to a program that no longer fits its
    /// material.
    pub open spec fn holds_stale_program(self) -> bool {
        self.program matches Some(held) && held.signature != self.signature()
    }

    /// The state in which the mesh holds the program for its material: a
    /// handle that fits is kept; one that does not is given back, and then,
    /// as without a handle, the program is requested.
    pub open spec fn prepared(self, cache: CacheView, ctx: ContextView) -> Prepared {
        let signature = self.signature();
        let source = self.material.source();
        if self.program is Some && !self.holds_stale_program() {
            Prepared { program: self.program, cache, ctx }
        } else {
            let released = if let Some(held) = self.program {
                Prepared {
                    program: None,
                    cache: cache_after_release(cache, held.signature),
                    ctx: context_after_release(cache, ctx, held.signature),
                }
            } else {
                Prepared { program: None, cache, ctx }
            };
            let requested = cache_after_request(released.cache, released.ctx, signature, source);
            Prepared {
                program: if request_succeeds(released.cache, released.ctx, signature, source) {
                    Some(ProgramHandleView { signature, program: requested[signature].program })
                } else {
                    None
                },
                cache: requested,
                ctx: context_after_request(released.cache, released.ctx, signature, source),
            }
        }
    }

    /// What the material reads and the mesh does not supply, if anything.
    pub open spec fn missing(self) -> Option<Seq<char>> {
        missing_attribute(self.mesh.mesh.attributes(), self.material.spec_required_attributes())
    }

    /// The context after the mesh was drawn, or after the draw failed.
    pub open spec fn drawn(
        self,
        cache: CacheView,
        ctx: ContextView,
        states: RenderStates,
        viewport: Viewport,
        transformation: Transformation,
        camera: Camera,
    ) -> ContextView {
        let prepared = self.prepared(cache, ctx);
        if self.missing() is Some {
            ctx
        } else if let Some(held) = prepared.program {
            let bound = prepared.ctx.record(self.material.bind_commands(held.program.id));
            if self.mesh.mesh.lacks(held.program) is Some {
                bound
            } else {
                bound.record(
                    self.mesh.render_commands(
                        held.program,
                        states,
                        viewport,
                        transformation,
                        camera,
                    ),
                )
            }
        } else {
            prepared.ctx
        }
    }
}

/// Drawing an instanced Phong mesh issues one draw call, of all its
/// instances, where it goes well, and none where it fails.
pub proof fn lemma_drawn_once_or_not_at_all(
    mesh: PhongDeferredInstancedMeshView,
    cache: CacheView,
    ctx: ContextView,
    states: RenderStates,
    viewport: Viewport,
    transformation: Transformation,
    camera: Camera,
)
    ensures
        ({
            let prepared = mesh.prepared(cache, ctx);
            let drawn = mesh.drawn(cache, ctx, states, viewport, transformation, camera);
            if mesh.missing() is None && prepared.program is Some && mesh.mesh.mesh.lacks(
                prepared.program->0.program,
            ) is None {
                drawn.draws() == ctx.draws().push(
                    mesh.mesh.mesh.draw_command(
                        prepared.program->0.program.id,
                        states,
                        viewport,
                        mesh.mesh.instances as u32,
                    ),
                )
            } else {
                drawn.draws() == ctx.draws()
            }
        }),
{
    let signature = mesh.signature();
    let source = mesh.material.source();
    let prepared = mesh.prepared(cache, ctx);
    if mesh.program is Some && !mesh.holds_stale_program() {
    } else {
        let released = if let Some(held) = mesh.program {
            context_after_release(cache, ctx, held.signature)
        } else {
            ctx
        };
        if let Some(held) = mesh.program {
            lemma_record_one(
                ctx,
                CommandView::DeleteProgram { program: cache[held.signature].program.id },
            );
        }
        assert(released.draws() == ctx.draws());
        lemma_record_one(
            released.allocate(1),
            MeshProgramView::of_source(
                ProgramId { raw: released.next_handle },
                source,
                true,
            ).create_command(source),
        );
    }
    assert(prepared.ctx.draws() == ctx.draws());
    if let Some(held) = prepared.program {
        mesh.material.lemma_bind_draws_nothing(prepared.ctx, held.program.id);
        lemma_instanced_render_draws_once(
            prepared.ctx.record(mesh.material.bind_commands(held.program.id)),
            mesh.mesh,
            held.program,
            states,
            viewport,
            transformation,
            camera,
        );
    }
}

/// Many instances of one mesh with a Phong material, drawn into the
/// attachments of the geometry pass.
pub struct PhongDeferredInstancedMesh {
    pub name: String,
    mesh: InstancedMesh,
    pub material: PhongMaterial,
    program: Option<ProgramHandle>,
}

impl View for PhongDeferredInstancedMesh {
    type V = PhongDeferredInstancedMeshView;

    closed spec fn view(&self) -> PhongDeferredInstancedMeshView {
        PhongDeferredInstancedMeshView {
            name: self.name@,
            mesh: self.mesh@,
            material: self.material,
            program: match self.program {
                Some(held) => Some(held@),
                None => None,
            },
        }
    }
}

impl PhongDeferredInstancedMesh {
    /// Copies the mesh to the device and places its instances. The Phong
    /// shaders read the normal, so a mesh without normals is refused.
    pub fn new(
        ctx: &mut Context,
        transformations: &[Mat4],
        cpu_mesh: &CPUMesh,
        material: &PhongMaterial,
    ) -> (mesh: Result<Self, Error>)
        ensures
            cpu_mesh.normals is None ==> mesh is Err && mesh->Err_0.is_missing(NORMAL_ATTRIBUTE@)
                && final(ctx)@ == old(ctx)@,
            cpu_mesh.normals is Some && !InstancedMeshView::can_create(
                old(ctx)@,
                transformations@,
                cpu_mesh,
            ) ==> mesh is Err && mesh->Err_0 == Error::ResourceCreationFailed && final(ctx)@
                == old(ctx)@,
            cpu_mesh.normals is Some && InstancedMeshView::can_create(
                old(ctx)@,
                transformations@,
                cpu_mesh,
            ) ==> mesh is Ok && mesh->Ok_0@ == (PhongDeferredInstancedMeshView {
                name: cpu_mesh.name@,
                mesh: InstancedMeshView::created(old(ctx)@, cpu_mesh).placed(
                    transformations@.len(),
                ),
                material: *material,
                program: None,
            }) && final(ctx)@ == InstancedMeshView::rows_created(
                creation_steps(old(ctx)@, cpu_mesh)[3],
            ).record(
                InstancedMeshView::created(old(ctx)@, cpu_mesh).place_commands(transformations@),
            ),
    {
        if cpu_mesh.normals.is_none() {
            return Err(Error::missing_attribute(NORMAL_ATTRIBUTE));
        }
        match InstancedMesh::new(ctx, transformations, cpu_mesh) {
            Ok(mesh) => Ok(
                Self { name: cpu_mesh.name.clone(), mesh, material: *material, program: None },
            ),
            Err(e) => Err(e),
        }
    }

    /// Places the instances anew, one for each of `transformations`.
    pub fn update_transformations(&mut self, ctx: &mut Context, transformations: &[Mat4])
        requires
            crate::buffer::fits_device(transformations@.len(), 4),
        ensures
            final(self)@ == (PhongDeferredInstancedMeshView {
                mesh: old(self)@.mesh.placed(transformations@.len()),
                ..old(self)@
            }),
            final(ctx)@ == old(ctx)@.record(old(self)@.mesh.place_commands(transformations@)),
    {
        self.mesh.update_transformations(ctx, transformations);
    }

    /// The key of the program that draws the mesh with its material.
    pub fn signature(&self) -> (signature: Signature)
        ensures
            signature == self@.signature(),
    {
        Signature {
            material: self.material.color_source.kind(),
            attributes: self.mesh.mesh().attributes(),
            instanced: true,
        }
    }

    /// Makes sure that the mesh holds a handle to the program for its
    /// material, which it takes from `cache`.
    pub fn prepare_program(&mut self, ctx: &mut Context, cache: &mut ProgramCache) -> (done: Result<
        (),
        Error,
    >)
        ensures
            final(self)@ == (PhongDeferredInstancedMeshView {
                program: old(self)@.prepared(old(cache)@, old(ctx)@).program,
                ..old(self)@
            }),
            final(cache)@ == old(self)@.prepared(old(cache)@, old(ctx)@).cache,
            final(ctx)@ == old(self)@.prepared(old(cache)@, old(ctx)@).ctx,
            done is Ok <==> final(self)@.program is Some,
            done is Err ==> done->Err_0 == Error::ResourceCreationFailed,
    {
        let signature = self.signature();
        let mut held: Option<ProgramHandle> = None;
        core::mem::swap(&mut self.program, &mut held);
        match held {
            Some(handle) => {
                if handle.signature() == signature {
                    self.program = Some(handle);
                    return Ok(());
                }
                cache.release(ctx, handle);
            },
            None => {},
        }
        proof {
            lemma_deferred_source_inputs(self.material.color_source is Texture);
        }
        let material = self.material;
        let source_fn = || -> (source: String)
            ensures
                source@ == material.source(),
            { material.fragment_shader_source() };
        match cache.get_or_compile(ctx, signature, source_fn) {
            Ok(handle) => {
                self.program = Some(handle);
                Ok(())
            },
            Err(e) => Err(e),
        }
    }

    /// Draws the instances into a shadow map: as into the geometry pass.
    pub fn render_depth(
        &mut self,
        ctx: &mut Context,
        cache: &mut ProgramCache,
        render_states: RenderStates,
        viewport: Viewport,
        transformation: &Transformation,
        camera: &Camera,
    ) -> (done: Result<(), Error>)
        ensures
            final(ctx)@ == old(self)@.drawn(
                old(cache)@,
                old(ctx)@,
                render_states,
                viewport,
                *transformation,
                *camera,
            ),
            match old(self)@.missing() {
                Some(name) => done is Err && done->Err_0.is_missing(name) && final(self)@ == old(
                    self,
                )@ && final(cache)@ == old(cache)@,
                None => {
                    let prepared = old(self)@.prepared(old(cache)@, old(ctx)@);
                    &&& final(self)@ == (PhongDeferredInstancedMeshView {
                        program: prepared.program,
                        ..old(self)@
                    })
                    &&& final(cache)@ == prepared.cache
                    &&& match prepared.program {
                        None => done is Err && done->Err_0 == Error::ResourceCreationFailed,
                        Some(held) => match old(self)@.mesh.mesh.lacks(held.program) {
                            Some(name) => done is Err && done->Err_0.is_missing(name),
                            None => done is Ok,
                        },
                    }
                },
            },
    {
        self.render_geometry(ctx, cache, render_states, viewport, transformation, camera)
    }

    /// Draws the instances with the program that fits the material: the
    /// colored one or the textured one, compiled when the first mesh needs it
    /// and shared from then on.
    ///
    /// Nothing is recorded where the material reads what the mesh does not
    /// supply.
    pub fn render_geometry(
        &mut self,
        ctx: &mut Context,
        cache: &mut ProgramCache,
        render_states: RenderStates,
        viewport: Viewport,
        transformation: &Transformation,
        camera: &Camera,
    ) -> (done: Result<(), Error>)
        ensures
            final(ctx)@ == old(self)@.drawn(
                old(cache)@,
                old(ctx)@,
                render_states,
                viewport,
                *transformation,
                *camera,
            ),
            match old(self)@.missing() {
                Some(name) => done is Err && done->Err_0.is_missing(name) && final(self)@ == old(
                    self,
                )@ && final(cache)@ == old(cache)@,
                None => {
                    let prepared = old(self)@.prepared(old(cache)@, old(ctx)@);
                    &&& final(self)@ == (PhongDeferredInstancedMeshView {
                        program: prepared.program,
                        ..old(self)@
                    })
                    &&& final(cache)@ == prepared.cache
                    &&& match prepared.program {
                        None => done is Err && done->Err_0 == Error::ResourceCreationFailed,
                        Some(held) => match old(self)@.mesh.mesh.lacks(held.program) {
                            Some(name) => done is Err && done->Err_0.is_missing(name),
                            None => done is Ok,
                        },
                    }
                },
            },
    {
        match check_attributes(self.mesh.mesh().attributes(), self.material.required_attributes()) {
            Ok(()) => {},
            Err(e) => {
                return Err(e);
            },
        }
        match self.prepare_program(ctx, cache) {
            Ok(()) => {},
            Err(e) => {
                return Err(e);
            },
        }
        match &self.program {
            Some(handle) => {
                let program = handle.program();
                match self.material.bind(ctx, program) {
                    Ok(()) => {},
                    Err(e) => {
                        return Err(e);
                    },
                }
                self.mesh.render(ctx, program, render_states, viewport, transformation, camera)
            },
            None => Err(Error::ResourceCreationFailed),
        }
    }

    /// Gives the handle to the program back to the cache and the buffers
    /// back to the device. The program goes with its last handle.
    pub fn delete(self, ctx: &mut Context, cache: &mut ProgramCache)
        ensures
            final(cache)@ == match self@.program {
                Some(held) => cache_after_release(old(cache)@, held.signature),
                None => old(cache)@,
            },
            final(ctx)@ == match self@.program {
                Some(held) => context_after_release(old(cache)@, old(ctx)@, held.signature),
                None => old(ctx)@,
            }.record(self@.mesh.delete_commands()),
    {
        let PhongDeferredInstancedMesh { mesh, program, .. } = self;
        match program {
            Some(handle) => {
                cache.release(ctx, handle);
            },
            None => {},
        }
        mesh.delete(ctx);
    }
}

} // verus!
