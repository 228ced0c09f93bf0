use crate::buffer::{ElementBuffer, InstanceBuffer, VertexBuffer};
use crate::context::{
    Attribute, BufferId, Command, CommandView, Context, ContextView, DrawCall, ProgramId,
    RenderStates, Uniform, UniformValue, Viewport,
};
use crate::error::Error;
use crate::math::{Mat4, Vec4};
use vstd::prelude::*;

verus! {

/// Whether `needle` occurs in `haystack` as a run of consecutive characters.
pub open spec fn occurs_in(needle: Seq<char>, haystack: Seq<char>) -> bool {
    exists|i: int|
        0 <= i && i + needle.len() <= haystack.len() && #[trigger] haystack.subrange(
            i,
            i + needle.len(),
        ) == needle
}

/// A text occurs in every text that is built around it.
pub proof fn lemma_occurs_in_middle(before: Seq<char>, needle: Seq<char>, after: Seq<char>)
    ensures
        occurs_in(needle, before + needle + after),
{
    let whole = before + needle + after;
    let start = before.len() as int;
    assert(whole.subrange(start, start + needle.len()) =~= needle);
}

/// `str::contains` with a string as the pattern: true exactly when the
/// pattern matches a sub-slice of the text. Believed of std, not proved.
#[verifier::external_body]
fn contains(haystack: &str, needle: &str) -> (found: bool)
    ensures
        found == occurs_in(needle@, haystack@),
{
    haystack.contains(needle)
}

/// The declaration by which a fragment shader takes the fragment position.
pub const POSITION_INPUT: &'static str = "in vec3 pos;";

/// The declaration by which a fragment shader takes the surface normal.
pub const NORMAL_INPUT: &'static str = "in vec3 nor;";

/// The declaration by which a fragment shader takes the uv coordinates.
pub const UV_INPUT: &'static str = "in vec2 uvs;";

/// What a fragment shader without the position input is rejected with.
pub const MISSING_POSITION_INPUT: &'static str =
    "The fragment shader needs to take the fragment position as input. Please add 'in vec3 pos;'";

pub const VERTEX_HEAD: &'static str = "
layout (std140) uniform Camera
{
    mat4 viewProjection;
    mat4 view;
    mat4 projection;
    vec3 position;
    float padding;
} camera;

uniform mat4 modelMatrix;
in vec3 position;
out vec3 pos;
";

pub const VERTEX_INSTANCE_INPUTS: &'static str = "
in vec4 row1;
in vec4 row2;
in vec4 row3;
";

pub const VERTEX_NORMAL_INPUTS: &'static str = "
uniform mat4 normalMatrix;
in vec3 normal;
out vec3 nor;
";

pub const VERTEX_UV_INPUTS: &'static str = "
in vec2 uv_coordinates;
out vec2 uvs;
";

pub const VERTEX_MAIN: &'static str = "
void main()
{
    mat4 local2World = modelMatrix;
";

pub const VERTEX_INSTANCE_TRANSFORM: &'static str = "
    mat4 transform;
    transform[0] = vec4(row1.x, row2.x, row3.x, 0.0);
    transform[1] = vec4(row1.y, row2.y, row3.y, 0.0);
    transform[2] = vec4(row1.z, row2.z, row3.z, 0.0);
    transform[3] = vec4(row1.w, row2.w, row3.w, 1.0);
    local2World *= transform;
";

pub const VERTEX_POSITION_OUTPUT: &'static str = "
    vec4 worldPosition = local2World * vec4(position, 1.);
    pos = worldPosition.xyz;
    gl_Position = camera.viewProjection * worldPosition;
";

pub const VERTEX_NORMAL_OUTPUT: &'static str = "
    nor = mat3(normalMatrix) * normal;
";

pub const VERTEX_UV_OUTPUT: &'static str = "
    uvs = uv_coordinates;
";

pub const VERTEX_TAIL: &'static str = "
}
";

/// `text` where `wanted` holds, nothing where it does not.
pub open spec fn optional(wanted: bool, text: Seq<char>) -> Seq<char> {
    if wanted {
        text
    } else {
        Seq::empty()
    }
}

/// The vertex shader that feeds a fragment shader which reads the normal
/// where `use_normals` holds and the uv coordinates where `use_uvs` holds;
/// where `instanced` holds, each instance is placed by its own rows.
pub open spec fn vertex_shader_source(use_normals: bool, use_uvs: bool, instanced: bool) -> Seq<
    char,
> {
    VERTEX_HEAD@ + optional(instanced, VERTEX_INSTANCE_INPUTS@) + optional(
        use_normals,
        VERTEX_NORMAL_INPUTS@,
    ) + optional(use_uvs, VERTEX_UV_INPUTS@) + VERTEX_MAIN@ + optional(
        instanced,
        VERTEX_INSTANCE_TRANSFORM@,
    ) + VERTEX_POSITION_OUTPUT@ + optional(use_normals, VERTEX_NORMAL_OUTPUT@) + optional(
        use_uvs,
        VERTEX_UV_OUTPUT@,
    ) + VERTEX_TAIL@
}

fn append_if(text: &mut String, wanted: bool, part: &str)
    ensures
        final(text)@ == old(text)@ + optional(wanted, part@),
{
    if wanted {
        text.append(part);
    }
    assert(text@ =~= old(text)@ + optional(wanted, part@));
}

/// Writes the vertex shader for the given inputs.
pub fn build_vertex_shader(use_normals: bool, use_uvs: bool, instanced: bool) -> (source: String)
    ensures
        source@ == vertex_shader_source(use_normals, use_uvs, instanced),
{
    let mut source = String::from_str(VERTEX_HEAD);
    append_if(&mut source, instanced, VERTEX_INSTANCE_INPUTS);
    append_if(&mut source, use_normals, VERTEX_NORMAL_INPUTS);
    append_if(&mut source, use_uvs, VERTEX_UV_INPUTS);
    source.append(VERTEX_MAIN);
    append_if(&mut source, instanced, VERTEX_INSTANCE_TRANSFORM);
    source.append(VERTEX_POSITION_OUTPUT);
    append_if(&mut source, use_normals, VERTEX_NORMAL_OUTPUT);
    append_if(&mut source, use_uvs, VERTEX_UV_OUTPUT);
    source.append(VERTEX_TAIL);
    source
}

/// A compiled shader program.
pub struct Program {
    id: ProgramId,
}

impl View for Program {
    type V = ProgramId;

    closed spec fn view(&self) -> ProgramId {
        self.id
    }
}

impl Program {
    /// Creates the program of the two shaders.
    pub fn from_source(
        ctx: &mut Context,
        vertex_shader_source: &str,
        fragment_shader_source: &str,
    ) -> (program: Result<Program, Error>)
        ensures
            old(ctx)@.remaining() == 0 ==> program == Err::<Program, Error>(
                Error::ResourceCreationFailed,
            ) && final(ctx)@ == old(ctx)@,
            old(ctx)@.remaining() > 0 ==> program is Ok && program->Ok_0@ == (ProgramId {
                raw: old(ctx)@.next_handle,
            }) && final(ctx)@ == old(ctx)@.allocate(1).record(
                seq![
                    CommandView::CreateProgram {
                        program: ProgramId { raw: old(ctx)@.next_handle },
                        vertex_source: vertex_shader_source@,
                        fragment_source: fragment_shader_source@,
                    },
                ],
            ),
    {
        let vertex = String::from_str(vertex_shader_source);
        let fragment = String::from_str(fragment_shader_source);
        match ctx.create_program(vertex, fragment) {
            Ok(id) => Ok(Program { id }),
            Err(e) => Err(e),
        }
    }

    pub fn id(&self) -> (id: ProgramId)
        ensures
            id == self@,
    {
        self.id
    }

    /// Sets a uniform of the program.
    pub fn add_uniform(&self, ctx: &mut Context, uniform: Uniform, value: UniformValue)
        ensures
            final(ctx)@ == old(ctx)@.record(
                seq![CommandView::SetUniform { program: self@, uniform, value }],
            ),
    {
        ctx.record(Command::SetUniform { program: self.id, uniform, value });
    }

    /// Sets a matrix uniform of the program.
    pub fn add_uniform_mat4(&self, ctx: &mut Context, uniform: Uniform, value: &Mat4)
        ensures
            final(ctx)@ == old(ctx)@.record(
                seq![
                    CommandView::SetUniform {
                        program: self@,
                        uniform,
                        value: UniformValue::Mat4(*value),
                    },
                ],
            ),
    {
        self.add_uniform(ctx, uniform, UniformValue::Mat4(*value));
    }

    /// Lets a uniform block of the program read from `buffer`.
    pub fn use_uniform_block(&self, ctx: &mut Context, buffer: BufferId, uniform: Uniform)
        ensures
            final(ctx)@ == old(ctx)@.record(
                seq![
                    CommandView::SetUniform {
                        program: self@,
                        uniform,
                        value: UniformValue::Block(buffer),
                    },
                ],
            ),
    {
        self.add_uniform(ctx, uniform, UniformValue::Block(buffer));
    }

    /// Lets a vertex input of three components read from `buffer`.
    pub fn use_attribute_vec3(&self, ctx: &mut Context, buffer: &VertexBuffer, attribute: Attribute)
        ensures
            final(ctx)@ == old(ctx)@.record(
                seq![
                    CommandView::UseAttribute {
                        program: self@,
                        attribute,
                        buffer: buffer@.id,
                        components: 3,
                        per_instance: false,
                    },
                ],
            ),
    {
        ctx.record(
            Command::UseAttribute {
                program: self.id,
                attribute,
                buffer: buffer.id(),
                components: 3,
                per_instance: false,
            },
        );
    }

    /// Lets a vertex input of two components read from `buffer`.
    pub fn use_attribute_vec2(&self, ctx: &mut Context, buffer: &VertexBuffer, attribute: Attribute)
        ensures
            final(ctx)@ == old(ctx)@.record(
                seq![
                    CommandView::UseAttribute {
                        program: self@,
                        attribute,
                        buffer: buffer@.id,
                        components: 2,
                        per_instance: false,
                    },
                ],
            ),
    {
        ctx.record(
            Command::UseAttribute {
                program: self.id,
                attribute,
                buffer: buffer.id(),
                components: 2,
                per_instance: false,
            },
        );
    }

    /// Lets a vertex input read one value of `buffer` per instance.
    pub fn use_instance_attribute(
        &self,
        ctx: &mut Context,
        buffer: &InstanceBuffer<Vec4>,
        attribute: Attribute,
    )
        ensures
            final(ctx)@ == old(ctx)@.record(
                seq![
                    CommandView::UseAttribute {
                        program: self@,
                        attribute,
                        buffer: buffer@.id,
                        components: 4,
                        per_instance: true,
                    },
                ],
            ),
    {
        ctx.record(
            Command::UseAttribute {
                program: self.id,
                attribute,
                buffer: buffer.id(),
                components: 4,
                per_instance: true,
            },
        );
    }

    /// Issues one draw call. Nothing else in the library records one.
    pub fn draw(&self, ctx: &mut Context, states: RenderStates, viewport: Viewport, call: DrawCall)
        ensures
            final(ctx)@ == old(ctx)@.record(
                seq![CommandView::Draw { program: self@, states, viewport, call }],
            ),
    {
        ctx.record(Command::Draw { program: self.id, states, viewport, call });
    }

    /// Draws the triangles that `indices` names.
    pub fn draw_elements(
        &self,
        ctx: &mut Context,
        states: RenderStates,
        viewport: Viewport,
        indices: &ElementBuffer,
    )
        ensures
            final(ctx)@ == old(ctx)@.record(
                seq![
                    CommandView::Draw {
                        program: self@,
                        states,
                        viewport,
                        call: DrawCall::Elements {
                            indices: indices@.id,
                            count: indices@.count as u32,
                            instances: 1,
                        },
                    },
                ],
            ),
    {
        let call = DrawCall::Elements { indices: indices.id(), count: indices.count(), instances: 1 };
        self.draw(ctx, states, viewport, call);
    }

    /// Draws `count` consecutive vertices as triangles.
    pub fn draw_arrays(&self, ctx: &mut Context, states: RenderStates, viewport: Viewport, count: u32)
        ensures
            final(ctx)@ == old(ctx)@.record(
                seq![
                    CommandView::Draw {
                        program: self@,
                        states,
                        viewport,
                        call: DrawCall::Arrays { vertices: count, instances: 1 },
                    },
                ],
            ),
    {
        self.draw(ctx, states, viewport, DrawCall::Arrays { vertices: count, instances: 1 });
    }

    /// Gives the program back to the device.
    pub fn delete(self, ctx: &mut Context)
        ensures
            final(ctx)@ == old(ctx)@.record(seq![CommandView::DeleteProgram { program: self@ }]),
    {
        ctx.record(Command::DeleteProgram { program: self.id });
    }
}

/// What a mesh program is: the program and the vertex inputs that it reads
/// besides the position.
pub struct MeshProgramView {
    pub id: ProgramId,
    pub use_normals: bool,
    pub use_uvs: bool,
    pub instanced: bool,
}

impl MeshProgramView {
    /// The mesh program that the fragment shader `fragment` compiles to
    /// under the handle `id`.
    pub open spec fn of_source(id: ProgramId, fragment: Seq<char>, instanced: bool)
        -> MeshProgramView {
        MeshProgramView {
            id,
            use_normals: occurs_in(NORMAL_INPUT@, fragment),
            use_uvs: occurs_in(UV_INPUT@, fragment),
            instanced,
        }
    }

    /// The command that creates this program from `fragment`.
    pub open spec fn create_command(self, fragment: Seq<char>) -> CommandView {
        CommandView::CreateProgram {
            program: self.id,
            vertex_source: vertex_shader_source(self.use_normals, self.use_uvs, self.instanced),
            fragment_source: fragment,
        }
    }
}

/// Whether a fragment shader is accepted: it has to take the position.
pub open spec fn accepts(fragment: Seq<char>) -> bool {
    occurs_in(POSITION_INPUT@, fragment)
}

/// The state of a context after the mesh program of `fragment` was created.
pub open spec fn compiled(ctx: ContextView, fragment: Seq<char>, instanced: bool) -> ContextView {
    let program = MeshProgramView::of_source(
        ProgramId { raw: ctx.next_handle },
        fragment,
        instanced,
    );
    ctx.allocate(1).record(seq![program.create_command(fragment)])
}

/// A program that draws meshes: the fragment shader is the caller's, the
/// vertex shader is written to feed it.
pub struct MeshProgram {
    program: Program,
    use_normals: bool,
    use_uvs: bool,
    instanced: bool,
}

impl View for MeshProgram {
    type V = MeshProgramView;

    closed spec fn view(&self) -> MeshProgramView {
        MeshProgramView {
            id: self.program@,
            use_normals: self.use_normals,
            use_uvs: self.use_uvs,
            instanced: self.instanced,
        }
    }
}

impl MeshProgram {
    /// Creates the program for meshes that are drawn once.
    pub fn new(ctx: &mut Context, fragment_shader_source: &str) -> (program: Result<Self, Error>)
        ensures
            !accepts(fragment_shader_source@) ==> program is Err
                && program->Err_0.is_compile_failure(MISSING_POSITION_INPUT@) && final(ctx)@ == old(
                ctx,
            )@,
            accepts(fragment_shader_source@) && old(ctx)@.remaining() == 0 ==> program == Err::<
                Self,
                Error,
            >(Error::ResourceCreationFailed) && final(ctx)@ == old(ctx)@,
            accepts(fragment_shader_source@) && old(ctx)@.remaining() > 0 ==> program is Ok
                && program->Ok_0@ == MeshProgramView::of_source(
                ProgramId { raw: old(ctx)@.next_handle },
                fragment_shader_source@,
                false,
            ) && final(ctx)@ == compiled(old(ctx)@, fragment_shader_source@, false),
    {
        Self::compile(ctx, fragment_shader_source, false)
    }

    /// Creates the program for meshes that are drawn once per instance.
    pub fn new_instanced(ctx: &mut Context, fragment_shader_source: &str) -> (program: Result<
        Self,
        Error,
    >)
        ensures
            !accepts(fragment_shader_source@) ==> program is Err
                && program->Err_0.is_compile_failure(MISSING_POSITION_INPUT@) && final(ctx)@ == old(
                ctx,
            )@,
            accepts(fragment_shader_source@) && old(ctx)@.remaining() == 0 ==> program == Err::<
                Self,
                Error,
            >(Error::ResourceCreationFailed) && final(ctx)@ == old(ctx)@,
            accepts(fragment_shader_source@) && old(ctx)@.remaining() > 0 ==> program is Ok
                && program->Ok_0@ == MeshProgramView::of_source(
                ProgramId { raw: old(ctx)@.next_handle },
                fragment_shader_source@,
                true,
            ) && final(ctx)@ == compiled(old(ctx)@, fragment_shader_source@, true),
    {
        Self::compile(ctx, fragment_shader_source, true)
    }

    /// Checks the fragment shader, writes the vertex shader that feeds it
    /// and creates the program of the two.
    pub fn compile(ctx: &mut Context, fragment_shader_source: &str, instanced: bool) -> (program:
        Result<Self, Error>)
        ensures
            !accepts(fragment_shader_source@) ==> program is Err
                && program->Err_0.is_compile_failure(MISSING_POSITION_INPUT@) && final(ctx)@ == old(
                ctx,
            )@,
            accepts(fragment_shader_source@) && old(ctx)@.remaining() == 0 ==> program == Err::<
                Self,
                Error,
            >(Error::ResourceCreationFailed) && final(ctx)@ == old(ctx)@,
            accepts(fragment_shader_source@) && old(ctx)@.remaining() > 0 ==> program is Ok
                && program->Ok_0@ == MeshProgramView::of_source(
                ProgramId { raw: old(ctx)@.next_handle },
                fragment_shader_source@,
                instanced,
            ) && final(ctx)@ == compiled(old(ctx)@, fragment_shader_source@, instanced),
    {
        if !contains(fragment_shader_source, POSITION_INPUT) {
            return Err(Error::shader_compile_failed(MISSING_POSITION_INPUT));
        }
        let use_normals = contains(fragment_shader_source, NORMAL_INPUT);
        let use_uvs = contains(fragment_shader_source, UV_INPUT);
        let vertex_shader_source = build_vertex_shader(use_normals, use_uvs, instanced);
        match Program::from_source(ctx, vertex_shader_source.as_str(), fragment_shader_source) {
            Ok(program) => Ok(MeshProgram { program, use_normals, use_uvs, instanced }),
            Err(e) => Err(e),
        }
    }

    /// Another name for the same program, for the cache that shares it out.
    pub(crate) fn share(&self) -> (other: MeshProgram)
        ensures
            other@ == self@,
    {
        MeshProgram {
            program: Program { id: self.program.id },
            use_normals: self.use_normals,
            use_uvs: self.use_uvs,
            instanced: self.instanced,
        }
    }

    /// The program itself.
    pub fn program(&self) -> (program: &Program)
        ensures
            program@ == self@.id,
    {
        &self.program
    }

    pub fn id(&self) -> (id: ProgramId)
        ensures
            id == self@.id,
    {
        self.program.id()
    }

    /// Whether the fragment shader reads the surface normal.
    pub fn use_normals(&self) -> (b: bool)
        ensures
            b == self@.use_normals,
    {
        self.use_normals
    }

    /// Whether the fragment shader reads the uv coordinates.
    pub fn use_uvs(&self) -> (b: bool)
        ensures
            b == self@.use_uvs,
    {
        self.use_uvs
    }

    /// Whether the vertex shader places each instance by its own rows.
    pub fn instanced(&self) -> (b: bool)
        ensures
            b == self@.instanced,
    {
        self.instanced
    }

    /// Gives the program back to the device.
    pub fn delete(self, ctx: &mut Context)
        ensures
            final(ctx)@ == old(ctx)@.record(seq![CommandView::DeleteProgram { program: self@.id }]),
    {
        self.program.delete(ctx);
    }
}

impl core::ops::Deref for MeshProgram {
    type Target = Program;

    fn deref(&self) -> (program: &Program)
        ensures
            program@ == self@.id,
    {
        &self.program
    }
}

} // verus!
