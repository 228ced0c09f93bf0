use crate::error::Error;
use crate::math::{Mat4, Scalar, Vec3, Vec4};
use vstd::prelude::*;

verus! {

/// Names a buffer object of the graphics device.
#[derive(Debug, Clone, Copy, PartialEq, Eq, Structural)]
pub struct BufferId {
    pub raw: u64,
}

/// Names a compiled shader program.
#[derive(Debug, Clone, Copy, PartialEq, Eq, Structural)]
pub struct ProgramId {
    pub raw: u64,
}

/// Names a texture, which a pass can render into or sample.
#[derive(Debug, Clone, Copy, PartialEq, Eq, Structural)]
pub struct TextureId {
    pub raw: u64,
}

/// The bind point that a buffer operation addresses.
#[derive(Debug, Clone, Copy, PartialEq, Eq, Structural)]
pub enum BufferTarget {
    Array,
    ElementArray,
    Uniform,
}

/// How often the device should expect a buffer's contents to change.
#[derive(Debug, Clone, Copy, PartialEq, Eq, Structural)]
pub enum Usage {
    Static,
    Dynamic,
}

#[derive(Debug, Clone, Copy, PartialEq, Eq, Structural)]
pub enum TextureKind {
    Color,
    Depth,
}

/// The uniforms that the renderer's shaders declare.
#[derive(Debug, Clone, Copy, PartialEq, Eq, Structural)]
pub enum Uniform {
    ModelMatrix,
    NormalMatrix,
    Camera,
    SurfaceColor,
    SurfaceTexture,
    DiffuseIntensity,
    SpecularIntensity,
    SpecularPower,
    PositionMap,
    NormalMap,
    ColorMap,
    DepthMap,
    Lights,
    LightIndex,
    ShadowMap,
    ShadowMatrix,
}

/// The vertex inputs that the renderer's shaders declare.
#[derive(Debug, Clone, Copy, PartialEq, Eq, Structural)]
pub enum Attribute {
    Position,
    Normal,
    UvCoordinates,
    Row1,
    Row2,
    Row3,
}

#[derive(Debug, Clone, Copy, PartialEq, Eq, Structural)]
pub enum UniformValue {
    Int(u32),
    Scalar(Scalar),
    Vec3(Vec3),
    Vec4(Vec4),
    Mat4(Mat4),
    Texture(TextureId),
    Block(BufferId),
}

/// The rectangle of the render target that a draw call covers.
#[derive(Debug, Clone, Copy, PartialEq, Eq, Structural)]
pub struct Viewport {
    pub x: u32,
    pub y: u32,
    pub width: u32,
    pub height: u32,
}

#[derive(Debug, Clone, Copy, PartialEq, Eq, Structural)]
pub enum Cull {
    Nothing,
    Back,
    Front,
}

#[derive(Debug, Clone, Copy, PartialEq, Eq, Structural)]
pub enum Blend {
    Replace,
    Additive,
}

/// Fixed-function state of one draw call.
#[derive(Debug, Clone, Copy, PartialEq, Eq, Structural)]
pub struct RenderStates {
    pub depth_test: bool,
    pub depth_write: bool,
    pub cull: Cull,
    pub blend: Blend,
}

/// Where the draw calls that follow write to.
#[derive(Debug, Clone, Copy, PartialEq, Eq, Structural)]
pub enum RenderTarget {
    /// The default framebuffer.
    Screen,
    /// A depth texture seen from a light.
    ShadowMap { depth: TextureId },
    /// The attachments that the geometry pass fills.
    GBuffer { position: TextureId, normal: TextureId, color: TextureId, depth: TextureId },
}

#[derive(Debug, Clone, Copy, PartialEq, Eq, Structural)]
pub enum DrawCall {
    Arrays { vertices: u32, instances: u32 },
    Elements { indices: BufferId, count: u32, instances: u32 },
}

/// One unit of work for the graphics device.
///
/// `D` is the type of uploaded data and `S` that of shader text: vectors and
/// strings in a recorded command, sequences in its view.
#[derive(Debug, Clone, PartialEq, Eq)]
pub enum CommandOf<D, S> {
    CreateBuffer { buffer: BufferId },
    DeleteBuffer { buffer: BufferId },
    BindBuffer { target: BufferTarget, buffer: BufferId },
    UnbindBuffer { target: BufferTarget },
    BufferData { target: BufferTarget, usage: Usage, data: D },
    CreateProgram { program: ProgramId, vertex_source: S, fragment_source: S },
    DeleteProgram { program: ProgramId },
    SetUniform { program: ProgramId, uniform: Uniform, value: UniformValue },
    UseAttribute {
        program: ProgramId,
        attribute: Attribute,
        buffer: BufferId,
        components: u32,
        per_instance: bool,
    },
    Draw { program: ProgramId, states: RenderStates, viewport: Viewport, call: DrawCall },
    CreateTexture { texture: TextureId, kind: TextureKind, width: u32, height: u32 },
    DeleteTexture { texture: TextureId },
    BindTarget { output: RenderTarget },
    Clear { color: Option<Vec4>, depth: bool },
}

/// A command as it is recorded.
pub type Command = CommandOf<Vec<u32>, String>;

/// What a recorded command says.
pub type CommandView = CommandOf<Seq<u32>, Seq<char>>;

impl View for CommandOf<Vec<u32>, String> {
    type V = CommandOf<Seq<u32>, Seq<char>>;

    open spec fn view(&self) -> CommandOf<Seq<u32>, Seq<char>> {
        match *self {
            CommandOf::CreateBuffer { buffer } => CommandOf::CreateBuffer { buffer },
            CommandOf::DeleteBuffer { buffer } => CommandOf::DeleteBuffer { buffer },
            CommandOf::BindBuffer { target, buffer } => CommandOf::BindBuffer { target, buffer },
            CommandOf::UnbindBuffer { target } => CommandOf::UnbindBuffer { target },
            CommandOf::BufferData { target, usage, data } => CommandOf::BufferData {
                target,
                usage,
                data: data@,
            },
            CommandOf::CreateProgram {
                program,
                vertex_source,
                fragment_source,
            } => CommandOf::CreateProgram {
                program,
                vertex_source: vertex_source@,
                fragment_source: fragment_source@,
            },
            CommandOf::DeleteProgram { program } => CommandOf::DeleteProgram { program },
            CommandOf::SetUniform { program, uniform, value } => CommandOf::SetUniform {
                program,
                uniform,
                value,
            },
            CommandOf::UseAttribute {
                program,
                attribute,
                buffer,
                components,
                per_instance,
            } => CommandOf::UseAttribute { program, attribute, buffer, components, per_instance },
            CommandOf::Draw { program, states, viewport, call } => CommandOf::Draw {
                program,
                states,
                viewport,
                call,
            },
            CommandOf::CreateTexture { texture, kind, width, height } => CommandOf::CreateTexture {
                texture,
                kind,
                width,
                height,
            },
            CommandOf::DeleteTexture { texture } => CommandOf::DeleteTexture { texture },
            CommandOf::BindTarget { output } => CommandOf::BindTarget { output },
            CommandOf::Clear { color, depth } => CommandOf::Clear { color, depth },
        }
    }
}

/// What each command of a recorded list says.
pub open spec fn views_of(commands: Seq<Command>) -> Seq<CommandView> {
    commands.map_values(|c: Command| c@)
}

/// The draw calls among `commands`, in order.
pub open spec fn draw_calls(commands: Seq<CommandView>) -> Seq<CommandView> {
    commands.filter(|c: CommandView| c is Draw)
}

/// The draw calls of a concatenation are those of its parts.
pub proof fn lemma_draw_calls_concat(a: Seq<CommandView>, b: Seq<CommandView>)
    ensures
        draw_calls(a + b) == draw_calls(a) + draw_calls(b),
{
    Seq::filter_distributes_over_add(a, b, |c: CommandView| c is Draw);
}

/// One command is one draw call or none.
pub proof fn lemma_draw_calls_single(command: CommandView)
    ensures
        draw_calls(seq![command]) == if command is Draw {
            seq![command]
        } else {
            Seq::<CommandView>::empty()
        },
{
    reveal(Seq::filter);
    assert(seq![command].drop_last() =~= Seq::<CommandView>::empty());
    assert(draw_calls(Seq::<CommandView>::empty()) =~= Seq::<CommandView>::empty());
    if command is Draw {
        assert(draw_calls(seq![command]) =~= seq![command]);
    }
}

/// A list without a draw command adds no draw call.
pub proof fn lemma_no_draw_calls(a: Seq<CommandView>)
    requires
        forall|i: int| 0 <= i < a.len() ==> !(a[i] is Draw),
    ensures
        draw_calls(a) == Seq::<CommandView>::empty(),
    decreases a.len(),
{
    reveal(Seq::filter);
    if a.len() > 0 {
        lemma_no_draw_calls(a.drop_last());
    }
}

/// Recording adds the draw calls among what is recorded, and only adds.
pub proof fn lemma_record_draws(ctx: ContextView, commands: Seq<CommandView>)
    ensures
        ctx.record(commands).draws() == ctx.draws() + draw_calls(commands),
        ctx.record(commands).extends(ctx),
{
    lemma_draw_calls_concat(ctx.commands, commands);
    assert((ctx.commands + commands).subrange(0, ctx.commands.len() as int) =~= ctx.commands);
}

/// Recording one command adds one draw call where the command is one, and
/// none where it is not.
pub proof fn lemma_record_one(ctx: ContextView, command: CommandView)
    ensures
        ctx.record(seq![command]).draws() == if command is Draw {
            ctx.draws().push(command)
        } else {
            ctx.draws()
        },
        ctx.record(seq![command]).extends(ctx),
{
    lemma_record_draws(ctx, seq![command]);
    lemma_draw_calls_single(command);
    if command is Draw {
        assert(ctx.draws() + seq![command] =~= ctx.draws().push(command));
    } else {
        assert(ctx.draws() + Seq::<CommandView>::empty() =~= ctx.draws());
    }
}

/// Every state extends itself.
pub proof fn lemma_extends_itself(ctx: ContextView)
    ensures
        ctx.extends(ctx),
{
    assert(ctx.commands.subrange(0, ctx.commands.len() as int) =~= ctx.commands);
}

/// What extends an extension of a state extends that state.
pub proof fn lemma_extends_transitive(a: ContextView, b: ContextView, c: ContextView)
    requires
        b.extends(a),
        c.extends(b),
    ensures
        c.extends(a),
{
    assert(c.commands.subrange(0, a.commands.len() as int) =~= b.commands.subrange(
        0,
        a.commands.len() as int,
    ));
}

/// The state of a context: the handles given out and the work recorded.
pub struct ContextView {
    /// The handle that the next created object gets.
    pub next_handle: u64,
    /// The commands recorded and not yet taken, oldest first.
    pub commands: Seq<CommandView>,
}

impl RenderStates {
    /// The state in which opaque geometry is drawn: nearer fragments win,
    /// back faces are left out.
    pub open spec fn spec_opaque() -> RenderStates {
        RenderStates { depth_test: true, depth_write: true, cull: Cull::Back, blend: Blend::Replace }
    }

    #[verifier::when_used_as_spec(spec_opaque)]
    pub fn opaque() -> (states: RenderStates)
        ensures
            states == RenderStates::spec_opaque(),
    {
        RenderStates { depth_test: true, depth_write: true, cull: Cull::Back, blend: Blend::Replace }
    }

    /// The state in which a light adds its share to the image.
    pub open spec fn spec_additive() -> RenderStates {
        RenderStates {
            depth_test: false,
            depth_write: false,
            cull: Cull::Nothing,
            blend: Blend::Additive,
        }
    }

    #[verifier::when_used_as_spec(spec_additive)]
    pub fn additive() -> (states: RenderStates)
        ensures
            states == RenderStates::spec_additive(),
    {
        RenderStates {
            depth_test: false,
            depth_write: false,
            cull: Cull::Nothing,
            blend: Blend::Additive,
        }
    }
}

impl ContextView {
    /// The draw calls recorded.
    pub open spec fn draws(self) -> Seq<CommandView> {
        draw_calls(self.commands)
    }

    /// The state after `commands` were recorded.
    pub open spec fn record(self, commands: Seq<CommandView>) -> ContextView {
        ContextView { next_handle: self.next_handle, commands: self.commands + commands }
    }

    /// The state after `count` handles were given out.
    pub open spec fn allocate(self, count: nat) -> ContextView {
        ContextView { next_handle: (self.next_handle + count) as u64, commands: self.commands }
    }

    /// How many objects can still be created.
    pub open spec fn remaining(self) -> nat {
        (u64::MAX - self.next_handle) as nat
    }

    /// Whether `self` can have come from `earlier` by recording and creating.
    pub open spec fn extends(self, earlier: ContextView) -> bool {
        &&& earlier.next_handle <= self.next_handle
        &&& earlier.commands.len() <= self.commands.len()
        &&& self.commands.subrange(0, earlier.commands.len() as int) == earlier.commands
    }
}

/// Records the work that the renderer asks of the graphics device and gives
/// out the handles by which that work names buffers, programs and textures.
pub struct Context {
    next_handle: u64,
    commands: Vec<Command>,
}

impl View for Context {
    type V = ContextView;

    closed spec fn view(&self) -> ContextView {
        ContextView { next_handle: self.next_handle, commands: views_of(self.commands@) }
    }
}

impl Context {
    /// A context with nothing recorded. Handles start at 1.
    pub fn new() -> (ctx: Context)
        ensures
            ctx@.next_handle == 1,
            ctx@.commands == Seq::<CommandView>::empty(),
    {
        let ctx = Context { next_handle: 1, commands: Vec::new() };
        assert(ctx@.commands =~= Seq::<CommandView>::empty());
        ctx
    }

    /// A context with nothing recorded, whose handles start at `first`.
    pub fn starting_at(first: u64) -> (ctx: Context)
        ensures
            ctx@.next_handle == first,
            ctx@.commands == Seq::<CommandView>::empty(),
    {
        let ctx = Context { next_handle: first, commands: Vec::new() };
        assert(ctx@.commands =~= Seq::<CommandView>::empty());
        ctx
    }

    /// The handle that the next created object gets.
    pub fn next_handle(&self) -> (next: u64)
        ensures
            next == self@.next_handle,
    {
        self.next_handle
    }

    /// How many objects can still be created.
    pub fn remaining(&self) -> (n: u64)
        ensures
            n == self@.remaining(),
    {
        u64::MAX - self.next_handle
    }

    /// The recorded commands, oldest first.
    pub fn commands(&self) -> (commands: &Vec<Command>)
        ensures
            views_of(commands@) == self@.commands,
    {
        &self.commands
    }

    /// Hands the recorded commands over and starts an empty record.
    pub fn take_commands(&mut self) -> (commands: Vec<Command>)
        ensures
            views_of(commands@) == old(self)@.commands,
            final(self)@ == (ContextView {
                next_handle: old(self)@.next_handle,
                commands: Seq::empty(),
            }),
    {
        let mut taken: Vec<Command> = Vec::new();
        std::mem::swap(&mut taken, &mut self.commands);
        assert(self@.commands =~= Seq::<CommandView>::empty());
        taken
    }

    /// Appends one command to the record.
    pub fn record(&mut self, command: Command)
        ensures
            final(self)@ == old(self)@.record(seq![command@]),
    {
        self.commands.push(command);
        assert(self@.commands =~= old(self)@.commands + seq![command@]);
    }

    fn allocate(&mut self) -> (handle: Result<u64, Error>)
        ensures
            old(self)@.remaining() == 0 ==> handle == Err::<u64, Error>(
                Error::ResourceCreationFailed,
            ) && final(self)@ == old(self)@,
            old(self)@.remaining() > 0 ==> handle == Ok::<u64, Error>(old(self)@.next_handle)
                && final(self)@ == old(self)@.allocate(1),
    {
        if self.next_handle == u64::MAX {
            Err(Error::ResourceCreationFailed)
        } else {
            let handle = self.next_handle;
            self.next_handle = handle + 1;
            Ok(handle)
        }
    }

    /// Creates a buffer object under a fresh handle.
    pub fn create_buffer(&mut self) -> (buffer: Result<BufferId, Error>)
        ensures
            old(self)@.remaining() == 0 ==> buffer == Err::<BufferId, Error>(
                Error::ResourceCreationFailed,
            ) && final(self)@ == old(self)@,
            old(self)@.remaining() > 0 ==> buffer == Ok::<BufferId, Error>(
                BufferId { raw: old(self)@.next_handle },
            ) && final(self)@ == old(self)@.allocate(1).record(
                seq![CommandView::CreateBuffer { buffer: BufferId { raw: old(self)@.next_handle } }],
            ),
    {
        match self.allocate() {
            Ok(raw) => {
                let buffer = BufferId { raw };
                self.record(Command::CreateBuffer { buffer });
                Ok(buffer)
            },
            Err(e) => Err(e),
        }
    }

    /// Creates a program from its two shader sources under a fresh handle.
    pub fn create_program(&mut self, vertex_source: String, fragment_source: String) -> (program:
        Result<ProgramId, Error>)
        ensures
            old(self)@.remaining() == 0 ==> program == Err::<ProgramId, Error>(
                Error::ResourceCreationFailed,
            ) && final(self)@ == old(self)@,
            old(self)@.remaining() > 0 ==> program == Ok::<ProgramId, Error>(
                ProgramId { raw: old(self)@.next_handle },
            ) && final(self)@ == old(self)@.allocate(1).record(
                seq![
                    CommandView::CreateProgram {
                        program: ProgramId { raw: old(self)@.next_handle },
                        vertex_source: vertex_source@,
                        fragment_source: fragment_source@,
                    },
                ],
            ),
    {
        match self.allocate() {
            Ok(raw) => {
                let program = ProgramId { raw };
                self.record(Command::CreateProgram { program, vertex_source, fragment_source });
                Ok(program)
            },
            Err(e) => Err(e),
        }
    }

    /// Creates a texture of the given size under a fresh handle.
    pub fn create_texture(&mut self, kind: TextureKind, width: u32, height: u32) -> (texture:
        Result<TextureId, Error>)
        ensures
            old(self)@.remaining() == 0 ==> texture == Err::<TextureId, Error>(
                Error::ResourceCreationFailed,
            ) && final(self)@ == old(self)@,
            old(self)@.remaining() > 0 ==> texture == Ok::<TextureId, Error>(
                TextureId { raw: old(self)@.next_handle },
            ) && final(self)@ == old(self)@.allocate(1).record(
                seq![
                    CommandView::CreateTexture {
                        texture: TextureId { raw: old(self)@.next_handle },
                        kind,
                        width,
                        height,
                    },
                ],
            ),
    {
        match self.allocate() {
            Ok(raw) => {
                let texture = TextureId { raw };
                self.record(Command::CreateTexture { texture, kind, width, height });
                Ok(texture)
            },
            Err(e) => Err(e),
        }
    }
}

} // verus!
