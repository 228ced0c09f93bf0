use crate::buffer::{created_and_filled, flatten, BufferView, ElementBuffer, VertexBuffer};
use crate::cache::{AttributeSet, ProgramCache, Signature};
use crate::camera::{Camera, Transformation};
use crate::context::{
    draw_calls, lemma_draw_calls_concat, lemma_extends_itself, lemma_extends_transitive,
    lemma_no_draw_calls,
    lemma_record_draws, lemma_record_one, Attribute, BufferId,
    BufferTarget, CommandView, Context, ContextView, DrawCall, ProgramId, RenderStates, Uniform,
    UniformValue, Viewport,
};
use crate::error::Error;
use crate::geometry::{check_attributes, missing_attribute, AxisAlignedBoundingBox, Geometry};
use crate::light::LightSet;
use crate::material::Material;
use crate::math::Scalar;
use crate::program::{MeshProgram, MeshProgramView};
use vstd::prelude::*;

verus! {

/// A mesh in main memory: what a loader hands over.
#[derive(Debug, Clone)]
pub struct CPUMesh {
    pub name: String,
    /// Three coordinates for each vertex.
    pub positions: Vec<Scalar>,
    /// Three vertices for each triangle; without them, every three
    /// consecutive vertices make a triangle.
    pub indices: Option<Vec<u32>>,
    /// Three coordinates for each vertex.
    pub normals: Option<Vec<Scalar>>,
    /// Two coordinates for each vertex.
    pub uvs: Option<Vec<Scalar>>,
    pub aabb: AxisAlignedBoundingBox,
}

impl CPUMesh {
    /// Whether each list is short enough for its length to be told to the
    /// device.
    pub open spec fn fits(&self) -> bool {
        &&& self.positions@.len() <= u32::MAX
        &&& self.indices matches Some(indices) ==> indices@.len() <= u32::MAX
        &&& self.normals matches Some(normals) ==> normals@.len() <= u32::MAX
        &&& self.uvs matches Some(uvs) ==> uvs@.len() <= u32::MAX
    }

    /// The number of buffers that the mesh takes on the device.
    pub open spec fn buffers(&self) -> nat {
        1 + if self.normals is Some {
            1nat
        } else {
            0
        } + if self.indices is Some {
            1nat
        } else {
            0
        } + if self.uvs is Some {
            1nat
        } else {
            0
        }
    }

    /// Tells whether each list is short enough for the device.
    pub fn check_fits(&self) -> (fits: bool)
        ensures
            fits == self.fits(),
    {
        let limit: usize = 0xFFFF_FFFF;
        let indices = match &self.indices {
            Some(indices) => indices.len() <= limit,
            None => true,
        };
        let normals = match &self.normals {
            Some(normals) => normals.len() <= limit,
            None => true,
        };
        let uvs = match &self.uvs {
            Some(uvs) => uvs.len() <= limit,
            None => true,
        };
        self.positions.len() <= limit && indices && normals && uvs
    }
}

/// What a mesh holds on the device.
pub struct MeshView {
    pub position: BufferView,
    pub normal: Option<BufferView>,
    pub index: Option<BufferView>,
    pub uv: Option<BufferView>,
    pub aabb: AxisAlignedBoundingBox,
    pub transformation: Transformation,
}

impl MeshView {
    pub open spec fn attributes(self) -> AttributeSet {
        AttributeSet { normals: self.normal is Some, uvs: self.uv is Some }
    }

    /// The draw call of the mesh: by its indices where it has them, else
    /// three position words to the vertex.
    pub open spec fn draw_call(self, instances: u32) -> DrawCall {
        match self.index {
            Some(index) => DrawCall::Elements {
                indices: index.id,
                count: index.count as u32,
                instances,
            },
            None => DrawCall::Arrays { vertices: (self.position.count / 3) as u32, instances },
        }
    }

    /// The commands that set the matrices and the positions for `program`.
    pub open spec fn position_commands(
        self,
        program: ProgramId,
        transformation: Transformation,
        camera: Camera,
    ) -> Seq<CommandView> {
        seq![
            CommandView::SetUniform {
                program,
                uniform: Uniform::ModelMatrix,
                value: UniformValue::Mat4(transformation.model),
            },
            CommandView::SetUniform {
                program,
                uniform: Uniform::Camera,
                value: UniformValue::Block(camera.matrices),
            },
            CommandView::UseAttribute {
                program,
                attribute: Attribute::Position,
                buffer: self.position.id,
                components: 3,
                per_instance: false,
            },
        ]
    }

    /// The command that hands the uv coordinates to a program that reads
    /// them.
    pub open spec fn uv_commands(self, program: MeshProgramView) -> Seq<CommandView> {
        if program.use_uvs && self.uv is Some {
            seq![
                CommandView::UseAttribute {
                    program: program.id,
                    attribute: Attribute::UvCoordinates,
                    buffer: self.uv->0.id,
                    components: 2,
                    per_instance: false,
                },
            ]
        } else {
            Seq::empty()
        }
    }

    /// The commands that hand the normals, and the matrix that takes them
    /// along, to a program that reads them.
    pub open spec fn normal_commands(self, program: MeshProgramView, transformation: Transformation)
        -> Seq<CommandView> {
        if program.use_normals && self.normal is Some {
            seq![
                CommandView::SetUniform {
                    program: program.id,
                    uniform: Uniform::NormalMatrix,
                    value: UniformValue::Mat4(transformation.normal),
                },
                CommandView::UseAttribute {
                    program: program.id,
                    attribute: Attribute::Normal,
                    buffer: self.normal->0.id,
                    components: 3,
                    per_instance: false,
                },
            ]
        } else {
            Seq::empty()
        }
    }

    /// The commands that feed `program` from this mesh.
    pub open spec fn input_commands(
        self,
        program: MeshProgramView,
        transformation: Transformation,
        camera: Camera,
    ) -> Seq<CommandView> {
        self.position_commands(program.id, transformation, camera) + self.uv_commands(program)
            + self.normal_commands(program, transformation)
    }

    /// The draw command of the mesh.
    pub open spec fn draw_command(
        self,
        program: ProgramId,
        states: RenderStates,
        viewport: Viewport,
        instances: u32,
    ) -> CommandView {
        CommandView::Draw { program, states, viewport, call: self.draw_call(instances) }
    }

    /// The commands that draw this mesh with `program`.
    pub open spec fn render_commands(
        self,
        program: MeshProgramView,
        states: RenderStates,
        viewport: Viewport,
        transformation: Transformation,
        camera: Camera,
    ) -> Seq<CommandView> {
        self.input_commands(program, transformation, camera).push(
            self.draw_command(program.id, states, viewport, 1),
        )
    }

    /// The command that deletes an optional buffer.
    pub open spec fn delete_optional(buffer: Option<BufferView>) -> Seq<CommandView> {
        match buffer {
            Some(buffer) => seq![CommandView::DeleteBuffer { buffer: buffer.id }],
            None => Seq::empty(),
        }
    }

    /// The commands that give the buffers of the mesh back.
    pub open spec fn delete_commands(self) -> Seq<CommandView> {
        seq![CommandView::DeleteBuffer { buffer: self.position.id }] + Self::delete_optional(
            self.normal,
        ) + Self::delete_optional(self.index) + Self::delete_optional(self.uv)
    }

    /// The input that `program` reads and this mesh lacks, if any.
    pub open spec fn lacks(self, program: MeshProgramView) -> Option<Seq<char>> {
        missing_attribute(
            self.attributes(),
            AttributeSet { normals: program.use_normals, uvs: program.use_uvs },
        )
    }
}

/// Drawing a mesh is one draw call, the last of its commands.
pub proof fn lemma_render_draws_once(
    ctx: ContextView,
    mesh: MeshView,
    program: MeshProgramView,
    states: RenderStates,
    viewport: Viewport,
    transformation: Transformation,
    camera: Camera,
)
    ensures
        ctx.record(
            mesh.render_commands(program, states, viewport, transformation, camera),
        ).draws() == ctx.draws().push(mesh.draw_command(program.id, states, viewport, 1)),
        ctx.record(mesh.render_commands(program, states, viewport, transformation, camera)).extends(
            ctx,
        ),
{
    let inputs = mesh.input_commands(program, transformation, camera);
    let draw = mesh.draw_command(program.id, states, viewport, 1);
    lemma_inputs_draw_nothing(mesh, program, transformation, camera);
    lemma_record_draws(ctx, inputs);
    lemma_record_one(ctx.record(inputs), draw);
    assert(ctx.draws() + Seq::<CommandView>::empty() =~= ctx.draws());
    assert(inputs.push(draw) =~= inputs + seq![draw]);
    assert(ctx.record(inputs).record(seq![draw]).commands =~= ctx.record(
        inputs.push(draw),
    ).commands);
    lemma_record_draws(ctx, inputs.push(draw));
}

/// Feeding a program draws nothing.
pub proof fn lemma_inputs_draw_nothing(
    mesh: MeshView,
    program: MeshProgramView,
    transformation: Transformation,
    camera: Camera,
)
    ensures
        draw_calls(mesh.input_commands(program, transformation, camera)) == Seq::<
            CommandView,
        >::empty(),
{
    let positions = mesh.position_commands(program.id, transformation, camera);
    let uvs = mesh.uv_commands(program);
    let normals = mesh.normal_commands(program, transformation);
    lemma_no_draw_calls(positions);
    lemma_no_draw_calls(uvs);
    lemma_no_draw_calls(normals);
    lemma_draw_calls_concat(positions, uvs);
    lemma_draw_calls_concat(positions + uvs, normals);
}

/// The state of a context after the buffer of an optional mesh attribute
/// was created and filled.
pub open spec fn with_optional(ctx: ContextView, target: BufferTarget, words: Option<Seq<u32>>)
    -> ContextView {
    match words {
        Some(words) => created_and_filled(ctx, target, words),
        None => ctx,
    }
}

/// The buffer of an optional mesh attribute that is created next in `ctx`.
pub open spec fn optional_buffer(ctx: ContextView, words: Option<Seq<u32>>) -> Option<BufferView> {
    match words {
        Some(words) => Some(BufferView { id: BufferId { raw: ctx.next_handle }, count: words.len() }),
        None => None,
    }
}

/// The words of an optional list of values.
pub open spec fn optional_words<T: crate::buffer::BufferDataType>(data: Option<Vec<T>>) -> Option<
    Seq<u32>,
> {
    match data {
        Some(data) => Some(flatten(data@)),
        None => None,
    }
}

/// The contexts through which the creation of a mesh goes: after the
/// positions, the normals, the indices and the uv coordinates, in this order.
pub open spec fn creation_steps(ctx: ContextView, cpu_mesh: &CPUMesh) -> Seq<ContextView> {
    let positions = created_and_filled(ctx, BufferTarget::Array, flatten(cpu_mesh.positions@));
    let normals = with_optional(positions, BufferTarget::Array, optional_words(cpu_mesh.normals));
    let indices = with_optional(
        normals,
        BufferTarget::ElementArray,
        optional_words(cpu_mesh.indices),
    );
    let uvs = with_optional(indices, BufferTarget::Array, optional_words(cpu_mesh.uvs));
    seq![positions, normals, indices, uvs]
}

impl MeshView {
    /// The mesh that is created from `cpu_mesh` in the context `ctx`.
    pub open spec fn created(ctx: ContextView, cpu_mesh: &CPUMesh) -> MeshView {
        let steps = creation_steps(ctx, cpu_mesh);
        MeshView {
            position: BufferView {
                id: BufferId { raw: ctx.next_handle },
                count: flatten(cpu_mesh.positions@).len(),
            },
            normal: optional_buffer(steps[0], optional_words(cpu_mesh.normals)),
            index: optional_buffer(steps[1], optional_words(cpu_mesh.indices)),
            uv: optional_buffer(steps[2], optional_words(cpu_mesh.uvs)),
            aabb: cpu_mesh.aabb,
            transformation: Transformation::spec_identity(),
        }
    }
}

/// A triangle mesh on the device.
pub struct Mesh {
    position_buffer: VertexBuffer,
    normal_buffer: Option<VertexBuffer>,
    index_buffer: Option<ElementBuffer>,
    uv_buffer: Option<VertexBuffer>,
    aabb: AxisAlignedBoundingBox,
    transformation: Transformation,
}

impl View for Mesh {
    type V = MeshView;

    closed spec fn view(&self) -> MeshView {
        MeshView {
            position: self.position_buffer@,
            normal: match self.normal_buffer {
                Some(buffer) => Some(buffer@),
                None => None,
            },
            index: match self.index_buffer {
                Some(buffer) => Some(buffer@),
                None => None,
            },
            uv: match self.uv_buffer {
                Some(buffer) => Some(buffer@),
                None => None,
            },
            aabb: self.aabb,
            transformation: self.transformation,
        }
    }
}

fn optional_vertices(ctx: &mut Context, data: &Option<Vec<Scalar>>) -> (buffer: Option<VertexBuffer>)
    requires
        data matches Some(data) ==> data@.len() <= u32::MAX && old(ctx)@.remaining() > 0,
    ensures
        final(ctx)@ == with_optional(old(ctx)@, BufferTarget::Array, optional_words(*data)),
        match buffer {
            Some(buffer) => Some(buffer@),
            None => None,
        } == optional_buffer(old(ctx)@, optional_words(*data)),
{
    match data {
        Some(data) => {
            proof {
                crate::buffer::lemma_flatten_len(data@);
            }
            match VertexBuffer::new_with_static(ctx, data.as_slice()) {
                Ok(buffer) => Some(buffer),
                Err(_) => None,
            }
        },
        None => None,
    }
}

fn optional_elements(ctx: &mut Context, data: &Option<Vec<u32>>) -> (buffer: Option<ElementBuffer>)
    requires
        data matches Some(data) ==> data@.len() <= u32::MAX && old(ctx)@.remaining() > 0,
    ensures
        final(ctx)@ == with_optional(old(ctx)@, BufferTarget::ElementArray, optional_words(*data)),
        match buffer {
            Some(buffer) => Some(buffer@),
            None => None,
        } == optional_buffer(old(ctx)@, optional_words(*data)),
{
    match data {
        Some(data) => {
            proof {
                crate::buffer::lemma_flatten_len(data@);
            }
            match ElementBuffer::new_with_u32(ctx, data.as_slice()) {
                Ok(buffer) => Some(buffer),
                Err(_) => None,
            }
        },
        None => None,
    }
}

impl Mesh {
    /// Copies a mesh to the device: one buffer for the positions and one for
    /// each of the normals, the indices and the uv coordinates that the mesh
    /// has. Where the context cannot create them all, or a list is too long
    /// for the device, it creates none.
    pub fn new(ctx: &mut Context, cpu_mesh: &CPUMesh) -> (mesh: Result<Self, Error>)
        ensures
            !cpu_mesh.fits() || old(ctx)@.remaining() < cpu_mesh.buffers() ==> mesh is Err
                && mesh->Err_0 == Error::ResourceCreationFailed && final(ctx)@ == old(ctx)@,
            cpu_mesh.fits() && old(ctx)@.remaining() >= cpu_mesh.buffers() ==> mesh is Ok
                && mesh->Ok_0@
                == MeshView::created(old(ctx)@, cpu_mesh) && final(ctx)@ == creation_steps(
                old(ctx)@,
                cpu_mesh,
            )[3],
    {
        let mut needed: u64 = 1;
        if cpu_mesh.normals.is_some() {
            needed += 1;
        }
        if cpu_mesh.indices.is_some() {
            needed += 1;
        }
        if cpu_mesh.uvs.is_some() {
            needed += 1;
        }
        if !cpu_mesh.check_fits() || ctx.remaining() < needed {
            return Err(Error::ResourceCreationFailed);
        }
        proof {
            crate::buffer::lemma_flatten_len(cpu_mesh.positions@);
        }
        let position_buffer = match VertexBuffer::new_with_static(
            ctx,
            cpu_mesh.positions.as_slice(),
        ) {
            Ok(buffer) => buffer,
            Err(e) => {
                return Err(e);
            },
        };
        let normal_buffer = optional_vertices(ctx, &cpu_mesh.normals);
        let index_buffer = optional_elements(ctx, &cpu_mesh.indices);
        let uv_buffer = optional_vertices(ctx, &cpu_mesh.uvs);
        Ok(
            Mesh {
                position_buffer,
                normal_buffer,
                index_buffer,
                uv_buffer,
                aabb: cpu_mesh.aabb,
                transformation: Transformation::identity(),
            },
        )
    }

    /// Where the mesh stands in the world.
    pub fn transformation(&self) -> (transformation: Transformation)
        ensures
            transformation == self@.transformation,
    {
        self.transformation
    }

    /// Moves the mesh. The draws that follow see the change.
    pub fn set_transformation(&mut self, transformation: Transformation)
        ensures
            final(self)@ == (MeshView { transformation, ..old(self)@ }),
    {
        self.transformation = transformation;
    }

    /// Feeds `program` from the buffers of the mesh: the positions, and of
    /// the uv coordinates and the normals those that the program reads and
    /// the mesh has.
    pub fn use_inputs(
        &self,
        ctx: &mut Context,
        program: &MeshProgram,
        transformation: &Transformation,
        camera: &Camera,
    )
        ensures
            final(ctx)@ == old(ctx)@.record(
                self@.input_commands(program@, *transformation, *camera),
            ),
    {
        let shader = program.program();
        shader.add_uniform_mat4(ctx, Uniform::ModelMatrix, &transformation.model);
        shader.use_uniform_block(ctx, camera.matrix_buffer(), Uniform::Camera);
        shader.use_attribute_vec3(ctx, &self.position_buffer, Attribute::Position);
        if program.use_uvs() {
            match &self.uv_buffer {
                Some(uv_buffer) => {
                    shader.use_attribute_vec2(ctx, uv_buffer, Attribute::UvCoordinates);
                },
                None => {},
            }
        }
        if program.use_normals() {
            match &self.normal_buffer {
                Some(normal_buffer) => {
                    shader.add_uniform_mat4(ctx, Uniform::NormalMatrix, &transformation.normal);
                    shader.use_attribute_vec3(ctx, normal_buffer, Attribute::Normal);
                },
                None => {},
            }
        }
        assert(ctx@.commands =~= old(ctx)@.commands + self@.input_commands(
            program@,
            *transformation,
            *camera,
        ));
    }

    /// Issues the draw call of the mesh, `instances` times over.
    pub fn draw(
        &self,
        ctx: &mut Context,
        program: &MeshProgram,
        render_states: RenderStates,
        viewport: Viewport,
        instances: u32,
    )
        ensures
            final(ctx)@ == old(ctx)@.record(
                seq![self@.draw_command(program@.id, render_states, viewport, instances)],
            ),
    {
        let call = match &self.index_buffer {
            Some(index_buffer) => DrawCall::Elements {
                indices: index_buffer.id(),
                count: index_buffer.count(),
                instances,
            },
            None => DrawCall::Arrays { vertices: self.position_buffer.count() / 3, instances },
        };
        program.program().draw(ctx, render_states, viewport, call);
    }

    /// Draws the mesh with `program`, in one draw call.
    ///
    /// Where the program reads an input that the mesh has no buffer for,
    /// nothing is recorded and the error names the input.
    pub fn render(
        &self,
        ctx: &mut Context,
        program: &MeshProgram,
        render_states: RenderStates,
        viewport: Viewport,
        transformation: &Transformation,
        camera: &Camera,
    ) -> (done: Result<(), Error>)
        ensures
            match self@.lacks(program@) {
                Some(name) => done is Err && done->Err_0.is_missing(name) && final(ctx)@ == old(
                    ctx,
                )@,
                None => done is Ok && final(ctx)@ == old(ctx)@.record(
                    self@.render_commands(
                        program@,
                        render_states,
                        viewport,
                        *transformation,
                        *camera,
                    ),
                ),
            },
    {
        let required = AttributeSet { normals: program.use_normals(), uvs: program.use_uvs() };
        match check_attributes(self.attributes(), required) {
            Ok(()) => {},
            Err(e) => {
                return Err(e);
            },
        }
        self.use_inputs(ctx, program, transformation, camera);
        self.draw(ctx, program, render_states, viewport, 1);
        assert(ctx@.commands =~= old(ctx)@.commands + self@.render_commands(
            program@,
            render_states,
            viewport,
            *transformation,
            *camera,
        ));
        Ok(())
    }

    /// Gives the buffers of the mesh back to the device.
    pub fn delete(self, ctx: &mut Context)
        ensures
            final(ctx)@ == old(ctx)@.record(self@.delete_commands()),
    {
        let Mesh { position_buffer, normal_buffer, index_buffer, uv_buffer, .. } = self;
        position_buffer.delete(ctx);
        match normal_buffer {
            Some(buffer) => {
                buffer.delete(ctx);
            },
            None => {},
        }
        match index_buffer {
            Some(buffer) => {
                buffer.delete(ctx);
            },
            None => {},
        }
        match uv_buffer {
            Some(buffer) => {
                buffer.delete(ctx);
            },
            None => {},
        }
        assert(ctx@.commands =~= old(ctx)@.commands + self@.delete_commands());
    }
}

/// The program that a request for `signature` hands out: the cached one,
/// or else the one that is compiled under the next handle.
pub open spec fn requested_program(
    cache: crate::cache::CacheView,
    ctx: ContextView,
    signature: Signature,
) -> ProgramId {
    if cache.contains_key(signature) {
        cache[signature].program.id
    } else {
        ProgramId { raw: ctx.next_handle }
    }
}

impl Geometry for Mesh {
    open spec fn spec_attributes(&self) -> AttributeSet {
        self@.attributes()
    }

    open spec fn spec_aabb(&self) -> AxisAlignedBoundingBox {
        self@.aabb
    }

    fn attributes(&self) -> (supplied: AttributeSet) {
        AttributeSet { normals: self.normal_buffer.is_some(), uvs: self.uv_buffer.is_some() }
    }

    fn aabb(&self) -> (aabb: AxisAlignedBoundingBox) {
        self.aabb
    }

    /// Draws the mesh where it stands, as opaque geometry seen from
    /// `camera`, with the program that the cache holds for the material on
    /// a mesh with these inputs. The program is held for the draw only: the
    /// cache is left as it was.
    fn render_with_material<Mat: Material>(
        &self,
        material: &Mat,
        camera: &Camera,
        _lights: &LightSet,
        ctx: &mut Context,
        cache: &mut ProgramCache,
    ) -> (done: Result<(), Error>)
        ensures
            final(cache)@ == old(cache)@,
            done is Ok ==> final(ctx)@.draws() == old(ctx)@.draws().push(
                self@.draw_command(
                    requested_program(
                        old(cache)@,
                        old(ctx)@,
                        Signature {
                            material: material.spec_kind(),
                            attributes: self@.attributes(),
                            instanced: false,
                        },
                    ),
                    RenderStates::spec_opaque(),
                    camera.viewport,
                    1,
                ),
            ),
    {
        proof {
            lemma_extends_itself(old(ctx)@);
        }
        let supplied = self.attributes();
        match check_attributes(supplied, material.required_attributes()) {
            Ok(()) => {},
            Err(e) => {
                return Err(e);
            },
        }
        let signature = Signature { material: material.kind(), attributes: supplied, instanced: false };
        let source_fn = || -> (source: String) { material.fragment_shader_source() };
        let requested = cache.get_or_compile(ctx, signature, source_fn);
        let ghost fragment = if old(cache)@.contains_key(signature) {
            Seq::<char>::empty()
        } else {
            (choose|source: String|
                crate::cache::served(
                    old(cache)@,
                    old(ctx)@,
                    signature,
                    source@,
                    cache@,
                    ctx@,
                    requested,
                ))@
        };
        let handle = match requested {
            Ok(handle) => handle,
            Err(e) => {
                return Err(e);
            },
        };
        let ghost compiled = ctx@;
        let ghost shared = cache@;
        proof {
            if !old(cache)@.contains_key(signature) {
                lemma_record_one(
                    old(ctx)@.allocate(1),
                    MeshProgramView::of_source(
                        ProgramId { raw: old(ctx)@.next_handle },
                        fragment,
                        false,
                    ).create_command(fragment),
                );
            }
            assert(compiled.draws() == old(ctx)@.draws());
            assert(compiled.extends(old(ctx)@));
        }
        let bound = material.bind(ctx, handle.program());
        let ghost bound_ctx = ctx@;
        let done = match bound {
            Ok(()) => self.render(
                ctx,
                handle.program(),
                RenderStates::opaque(),
                camera.viewport(),
                &self.transformation,
                camera,
            ),
            Err(e) => Err(e),
        };
        let ghost drawn = ctx@;
        proof {
            lemma_render_draws_once(
                bound_ctx,
                self@,
                handle@.program,
                RenderStates::spec_opaque(),
                camera.viewport,
                self@.transformation,
                *camera,
            );
            lemma_extends_itself(bound_ctx);
            lemma_extends_transitive(old(ctx)@, compiled, bound_ctx);
            lemma_extends_transitive(old(ctx)@, bound_ctx, drawn);
        }
        cache.release(ctx, handle);
        proof {
            lemma_record_one(
                drawn,
                CommandView::DeleteProgram { program: handle@.program.id },
            );
            lemma_extends_itself(drawn);
            lemma_extends_transitive(old(ctx)@, drawn, ctx@);
            assert(cache@ =~= old(cache)@);
        }
        done
    }
}

} // verus!
