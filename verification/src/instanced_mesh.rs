use crate::buffer::{flatten, upload_commands, InstanceBuffer, InstanceBufferView};
use crate::camera::{Camera, Transformation};
use crate::context::{
    lemma_no_draw_calls, lemma_record_draws, lemma_record_one, Attribute, BufferTarget,
    CommandView, Context, ContextView, ProgramId, RenderStates, Viewport,
};
use crate::error::Error;
use crate::geometry::Geometry;
use crate::math::{Mat4, Vec4};
use crate::mesh::{creation_steps, lemma_inputs_draw_nothing, CPUMesh, Mesh, MeshView};
use crate::program::{MeshProgram, MeshProgramView};
use vstd::prelude::*;

verus! {

/// The `row`-th row of each of `transformations`, in order.
pub open spec fn rows(transformations: Seq<Mat4>, row: int) -> Seq<Vec4> {
    transformations.map_values(|transformation: Mat4| transformation.row(row))
}

/// Collects one row of each transformation.
pub fn collect_rows(transformations: &[Mat4], row: usize) -> (collected: Vec<Vec4>)
    ensures
        collected@ == rows(transformations@, row as int),
{
    let mut collected: Vec<Vec4> = Vec::new();
    let mut i: usize = 0;
    while i < transformations.len()
        invariant
            i <= transformations.len(),
            collected@ == rows(transformations@.take(i as int), row as int),
        decreases transformations.len() - i,
    {
        collected.push(transformations[i].row_at(row));
        assert(collected@ =~= rows(transformations@.take(i + 1), row as int));
        i += 1;
    }
    assert(transformations@.take(transformations.len() as int) =~= transformations@);
    collected
}

/// What an instanced mesh holds on the device.
pub struct InstancedMeshView {
    pub mesh: MeshView,
    pub row1: InstanceBufferView,
    pub row2: InstanceBufferView,
    pub row3: InstanceBufferView,
    /// The number of instances that a draw call draws.
    pub instances: nat,
}

impl InstancedMeshView {
    /// The commands that hand the rows of the instances to `program`.
    pub open spec fn instance_commands(self, program: ProgramId) -> Seq<CommandView> {
        seq![
            CommandView::UseAttribute {
                program,
                attribute: Attribute::Row1,
                buffer: self.row1.id,
                components: 4,
                per_instance: true,
            },
            CommandView::UseAttribute {
                program,
                attribute: Attribute::Row2,
                buffer: self.row2.id,
                components: 4,
                per_instance: true,
            },
            CommandView::UseAttribute {
                program,
                attribute: Attribute::Row3,
                buffer: self.row3.id,
                components: 4,
                per_instance: true,
            },
        ]
    }

    /// The commands that draw all instances with `program`.
    pub open spec fn render_commands(
        self,
        program: MeshProgramView,
        states: RenderStates,
        viewport: Viewport,
        transformation: Transformation,
        camera: Camera,
    ) -> Seq<CommandView> {
        (self.mesh.input_commands(program, transformation, camera) + self.instance_commands(
            program.id,
        )).push(self.mesh.draw_command(program.id, states, viewport, self.instances as u32))
    }

    /// The instanced mesh after its instances were placed by `count`
    /// transformations.
    pub open spec fn placed(self, count: nat) -> InstancedMeshView {
        InstancedMeshView {
            mesh: self.mesh,
            row1: self.row1.filled(count),
            row2: self.row2.filled(count),
            row3: self.row3.filled(count),
            instances: count,
        }
    }

    /// The commands that upload the rows of `transformations`.
    pub open spec fn place_commands(self, transformations: Seq<Mat4>) -> Seq<CommandView> {
        upload_commands(
            BufferTarget::Array,
            self.row1.id,
            crate::buffer::next_usage(self.row1.usage),
            flatten(rows(transformations, 0)),
        ) + upload_commands(
            BufferTarget::Array,
            self.row2.id,
            crate::buffer::next_usage(self.row2.usage),
            flatten(rows(transformations, 1)),
        ) + upload_commands(
            BufferTarget::Array,
            self.row3.id,
            crate::buffer::next_usage(self.row3.usage),
            flatten(rows(transformations, 2)),
        )
    }

    /// The instanced mesh that is created in the context `ctx`, before its
    /// instances are placed.
    pub open spec fn created(ctx: ContextView, cpu_mesh: &CPUMesh) -> InstancedMeshView {
        let after_mesh = creation_steps(ctx, cpu_mesh)[3];
        let empty = |offset: nat|
            InstanceBufferView {
                id: crate::context::BufferId { raw: (after_mesh.next_handle + offset) as u64 },
                attribute_count: 0,
                usage: None,
            };
        InstancedMeshView {
            mesh: MeshView::created(ctx, cpu_mesh),
            row1: empty(0),
            row2: empty(1),
            row3: empty(2),
            instances: 0,
        }
    }

    /// Whether an instanced mesh can be created: its lists and the rows of
    /// its instances fit the device, and the context has a handle for each
    /// buffer of the mesh and for the three row buffers.
    pub open spec fn can_create(ctx: ContextView, transformations: Seq<Mat4>, cpu_mesh: &CPUMesh)
        -> bool {
        &&& cpu_mesh.fits()
        &&& crate::buffer::fits_device(transformations.len(), 4)
        &&& ctx.remaining() >= cpu_mesh.buffers() + 3
    }

    /// The context after the three row buffers were created.
    pub open spec fn rows_created(ctx: ContextView) -> ContextView {
        ctx.allocate(3).record(
            seq![
                CommandView::CreateBuffer {
                    buffer: crate::context::BufferId { raw: ctx.next_handle },
                },
                CommandView::CreateBuffer {
                    buffer: crate::context::BufferId { raw: (ctx.next_handle + 1) as u64 },
                },
                CommandView::CreateBuffer {
                    buffer: crate::context::BufferId { raw: (ctx.next_handle + 2) as u64 },
                },
            ],
        )
    }
}

/// Drawing an instanced mesh is one draw call, the last of its commands.
pub proof fn lemma_instanced_render_draws_once(
    ctx: ContextView,
    mesh: InstancedMeshView,
    program: MeshProgramView,
    states: RenderStates,
    viewport: Viewport,
    transformation: Transformation,
    camera: Camera,
)
    ensures
        ctx.record(
            mesh.render_commands(program, states, viewport, transformation, camera),
        ).draws() == ctx.draws().push(
            mesh.mesh.draw_command(program.id, states, viewport, mesh.instances as u32),
        ),
        ctx.record(mesh.render_commands(program, states, viewport, transformation, camera)).extends(
            ctx,
        ),
{
    let inputs = mesh.mesh.input_commands(program, transformation, camera);
    let instances = mesh.instance_commands(program.id);
    let draw = mesh.mesh.draw_command(program.id, states, viewport, mesh.instances as u32);
    lemma_inputs_draw_nothing(mesh.mesh, program, transformation, camera);
    lemma_no_draw_calls(instances);
    lemma_record_draws(ctx, inputs);
    lemma_record_draws(ctx.record(inputs), instances);
    lemma_record_one(ctx.record(inputs).record(instances), draw);
    assert(ctx.draws() + Seq::<CommandView>::empty() =~= ctx.draws());
    assert(ctx.record(inputs).record(instances).record(seq![draw]).commands =~= ctx.record(
        (inputs + instances).push(draw),
    ).commands);
    lemma_record_draws(ctx, (inputs + instances).push(draw));
}

/// A triangle mesh that is drawn many times over in one draw call, each
/// instance placed by a transformation of its own.
pub struct InstancedMesh {
    mesh: Mesh,
    instance_buffer1: InstanceBuffer<Vec4>,
    instance_buffer2: InstanceBuffer<Vec4>,
    instance_buffer3: InstanceBuffer<Vec4>,
    instance_count: u32,
}

impl View for InstancedMesh {
    type V = InstancedMeshView;

    closed spec fn view(&self) -> InstancedMeshView {
        InstancedMeshView {
            mesh: self.mesh@,
            row1: self.instance_buffer1@,
            row2: self.instance_buffer2@,
            row3: self.instance_buffer3@,
            instances: self.instance_count as nat,
        }
    }
}

impl InstancedMesh {
    /// Copies a mesh to the device and places one instance of it for each
    /// of `transformations`. Where the context cannot create all the
    /// buffers, or there is more data than the device can be told of, it
    /// creates none.
    pub fn new(ctx: &mut Context, transformations: &[Mat4], cpu_mesh: &CPUMesh) -> (mesh: Result<
        Self,
        Error,
    >)
        ensures
            !InstancedMeshView::can_create(old(ctx)@, transformations@, cpu_mesh) ==> mesh is Err
                && mesh->Err_0 == Error::ResourceCreationFailed && final(ctx)@ == old(ctx)@,
            InstancedMeshView::can_create(old(ctx)@, transformations@, cpu_mesh) ==> mesh is Ok
                && mesh->Ok_0@
                == InstancedMeshView::created(old(ctx)@, cpu_mesh).placed(transformations@.len())
                && final(ctx)@ == InstancedMeshView::rows_created(
                creation_steps(old(ctx)@, cpu_mesh)[3],
            ).record(
                InstancedMeshView::created(old(ctx)@, cpu_mesh).place_commands(transformations@),
            ),
    {
        let mut needed: u64 = 4;
        if cpu_mesh.normals.is_some() {
            needed += 1;
        }
        if cpu_mesh.indices.is_some() {
            needed += 1;
        }
        if cpu_mesh.uvs.is_some() {
            needed += 1;
        }
        if !cpu_mesh.check_fits() || !crate::buffer::fits(transformations.len(), 4)
            || ctx.remaining() < needed {
            return Err(Error::ResourceCreationFailed);
        }
        let mesh = match Mesh::new(ctx, cpu_mesh) {
            Ok(mesh) => mesh,
            Err(e) => {
                return Err(e);
            },
        };
        let ghost after_mesh = ctx@;
        let instance_buffer1 = match InstanceBuffer::new(ctx) {
            Ok(buffer) => buffer,
            Err(e) => {
                return Err(e);
            },
        };
        let instance_buffer2 = match InstanceBuffer::new(ctx) {
            Ok(buffer) => buffer,
            Err(e) => {
                return Err(e);
            },
        };
        let instance_buffer3 = match InstanceBuffer::new(ctx) {
            Ok(buffer) => buffer,
            Err(e) => {
                return Err(e);
            },
        };
        assert(ctx@.commands =~= InstancedMeshView::rows_created(after_mesh).commands);
        let mut instanced = InstancedMesh {
            mesh,
            instance_buffer1,
            instance_buffer2,
            instance_buffer3,
            instance_count: 0,
        };
        instanced.update_transformations(ctx, transformations);
        Ok(instanced)
    }

    /// Places the instances anew, one for each of `transformations`.
    pub fn update_transformations(&mut self, ctx: &mut Context, transformations: &[Mat4])
        requires
            crate::buffer::fits_device(transformations@.len(), 4),
        ensures
            final(self)@ == old(self)@.placed(transformations@.len()),
            final(ctx)@ == old(ctx)@.record(old(self)@.place_commands(transformations@)),
    {
        let row1 = collect_rows(transformations, 0);
        let row2 = collect_rows(transformations, 1);
        let row3 = collect_rows(transformations, 2);
        self.instance_buffer1.fill_with_dynamic(ctx, row1.as_slice());
        self.instance_buffer2.fill_with_dynamic(ctx, row2.as_slice());
        self.instance_buffer3.fill_with_dynamic(ctx, row3.as_slice());
        self.instance_count = transformations.len() as u32;
        assert(ctx@.commands =~= old(ctx)@.commands + old(self)@.place_commands(transformations@));
    }

    /// Creates the program that draws instanced meshes with the given
    /// fragment shader.
    pub fn create_program(ctx: &mut Context, fragment_shader_source: &str) -> (program: Result<
        MeshProgram,
        Error,
    >)
        ensures
            !crate::program::accepts(fragment_shader_source@) ==> program is Err
                && program->Err_0.is_compile_failure(crate::program::MISSING_POSITION_INPUT@)
                && final(ctx)@ == old(ctx)@,
            crate::program::accepts(fragment_shader_source@) && old(ctx)@.remaining() == 0
                ==> program is Err && program->Err_0 == Error::ResourceCreationFailed && final(ctx)@ == old(ctx)@,
            crate::program::accepts(fragment_shader_source@) && old(ctx)@.remaining() > 0
                ==> program is Ok && program->Ok_0@ == MeshProgramView::of_source(
                ProgramId { raw: old(ctx)@.next_handle },
                fragment_shader_source@,
                true,
            ) && final(ctx)@ == crate::program::compiled(old(ctx)@, fragment_shader_source@, true),
    {
        MeshProgram::new_instanced(ctx, fragment_shader_source)
    }

    /// Draws all instances with `program`, in one draw call.
    ///
    /// Where the program reads an input that the mesh has no buffer for,
    /// nothing is recorded and the error names the input.
    pub fn render(
        &self,
        ctx: &mut Context,
        program: &MeshProgram,
        render_states: RenderStates,
        viewport: Viewport,
        transformation: &Transformation,
        camera: &Camera,
    ) -> (done: Result<(), Error>)
        ensures
            match self@.mesh.lacks(program@) {
                Some(name) => done is Err && done->Err_0.is_missing(name) && final(ctx)@ == old(
                    ctx,
                )@,
                None => done is Ok && final(ctx)@ == old(ctx)@.record(
                    self@.render_commands(
                        program@,
                        render_states,
                        viewport,
                        *transformation,
                        *camera,
                    ),
                ),
            },
    {
        let required = crate::cache::AttributeSet {
            normals: program.use_normals(),
            uvs: program.use_uvs(),
        };
        match crate::geometry::check_attributes(self.mesh.attributes(), required) {
            Ok(()) => {},
            Err(e) => {
                return Err(e);
            },
        }
        self.mesh.use_inputs(ctx, program, transformation, camera);
        let shader = program.program();
        shader.use_instance_attribute(ctx, &self.instance_buffer1, Attribute::Row1);
        shader.use_instance_attribute(ctx, &self.instance_buffer2, Attribute::Row2);
        shader.use_instance_attribute(ctx, &self.instance_buffer3, Attribute::Row3);
        self.mesh.draw(ctx, program, render_states, viewport, self.instance_count);
        assert(ctx@.commands =~= old(ctx)@.commands + self@.render_commands(
            program@,
            render_states,
            viewport,
            *transformation,
            *camera,
        ));
        Ok(())
    }

    /// The mesh that each instance shows.
    pub fn mesh(&self) -> (mesh: &Mesh)
        ensures
            mesh@ == self@.mesh,
    {
        &self.mesh
    }

    /// The number of instances that a draw call draws.
    pub fn instance_count(&self) -> (count: u32)
        ensures
            count == self@.instances,
    {
        self.instance_count
    }

    /// Gives the buffers of the mesh and of its instances back to the device.
    pub fn delete(self, ctx: &mut Context)
        ensures
            final(ctx)@ == old(ctx)@.record(self@.delete_commands()),
    {
        let InstancedMesh { mesh, instance_buffer1, instance_buffer2, instance_buffer3, .. } = self;
        mesh.delete(ctx);
        instance_buffer1.delete(ctx);
        instance_buffer2.delete(ctx);
        instance_buffer3.delete(ctx);
        assert(ctx@.commands =~= old(ctx)@.commands + self@.delete_commands());
    }
}

impl InstancedMeshView {
    /// The commands that give all buffers back.
    pub open spec fn delete_commands(self) -> Seq<CommandView> {
        self.mesh.delete_commands() + seq![
            CommandView::DeleteBuffer { buffer: self.row1.id },
            CommandView::DeleteBuffer { buffer: self.row2.id },
            CommandView::DeleteBuffer { buffer: self.row3.id },
        ]
    }
}

} // verus!
