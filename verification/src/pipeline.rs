use crate::buffer::upload_commands;
use crate::cache::{CacheView, ProgramCache};
use crate::camera::Camera;
use crate::context::{
    BufferId, BufferTarget, Command, CommandView, Context, ContextView, DrawCall, ProgramId,
    RenderStates, RenderTarget, TextureId, TextureKind, Uniform, UniformValue, Usage, Viewport,
};
use crate::error::Error;
use crate::light::{
    AmbientLight, DirectionalLight, LightSet, LightSetView, PointLight, ShadowMap, SpotLight,
    MAX_NO_LIGHTS,
};
use crate::math::Vec4;
use vstd::prelude::*;

verus! {

/// The pass that was completed last in the frame that is being rendered.
#[derive(Debug, Clone, Copy, PartialEq, Eq, Structural)]
pub enum Phase {
    /// No pass of a frame is completed: at the start, after a resize and
    /// after a pass that failed.
    Idle,
    /// The shadow maps are filled.
    ShadowPass,
    /// The attachments hold the geometry of this frame.
    GeometryPass,
    /// The frame is lit.
    LightPass,
}

/// The textures that the geometry pass fills and the light pass reads.
#[derive(Debug, Clone, Copy, PartialEq, Eq, Structural)]
pub struct GBuffer {
    pub position: TextureId,
    pub normal: TextureId,
    pub color: TextureId,
    pub depth: TextureId,
    pub width: u32,
    pub height: u32,
}

impl GBuffer {
    /// The attachments whose textures take the four handles from
    /// `next_handle` on.
    pub open spec fn created_at(next_handle: u64, width: u32, height: u32) -> GBuffer {
        GBuffer {
            position: TextureId { raw: next_handle },
            normal: TextureId { raw: (next_handle + 1) as u64 },
            color: TextureId { raw: (next_handle + 2) as u64 },
            depth: TextureId { raw: (next_handle + 3) as u64 },
            width,
            height,
        }
    }

    /// The commands that create the four textures.
    pub open spec fn create_commands(self) -> Seq<CommandView> {
        seq![
            CommandView::CreateTexture {
                texture: self.position,
                kind: TextureKind::Color,
                width: self.width,
                height: self.height,
            },
            CommandView::CreateTexture {
                texture: self.normal,
                kind: TextureKind::Color,
                width: self.width,
                height: self.height,
            },
            CommandView::CreateTexture {
                texture: self.color,
                kind: TextureKind::Color,
                width: self.width,
                height: self.height,
            },
            CommandView::CreateTexture {
                texture: self.depth,
                kind: TextureKind::Depth,
                width: self.width,
                height: self.height,
            },
        ]
    }

    /// The commands that give the four textures back.
    pub open spec fn delete_commands(self) -> Seq<CommandView> {
        seq![
            CommandView::DeleteTexture { texture: self.position },
            CommandView::DeleteTexture { texture: self.normal },
            CommandView::DeleteTexture { texture: self.color },
            CommandView::DeleteTexture { texture: self.depth },
        ]
    }

    /// The attachments as a render target.
    pub open spec fn target(self) -> RenderTarget {
        RenderTarget::GBuffer {
            position: self.position,
            normal: self.normal,
            color: self.color,
            depth: self.depth,
        }
    }
}

fn create_gbuffer(ctx: &mut Context, width: u32, height: u32) -> (gbuffer: GBuffer)
    requires
        old(ctx)@.remaining() >= 4,
    ensures
        gbuffer == GBuffer::created_at(old(ctx)@.next_handle, width, height),
        final(ctx)@ == old(ctx)@.allocate(4).record(gbuffer.create_commands()),
{
    let position = TextureId { raw: ctx.create_texture(TextureKind::Color, width, height).unwrap().raw };
    let normal = TextureId { raw: ctx.create_texture(TextureKind::Color, width, height).unwrap().raw };
    let color = TextureId { raw: ctx.create_texture(TextureKind::Color, width, height).unwrap().raw };
    let depth = TextureId { raw: ctx.create_texture(TextureKind::Depth, width, height).unwrap().raw };
    let gbuffer = GBuffer { position, normal, color, depth, width, height };
    assert(ctx@.commands =~= old(ctx)@.commands + gbuffer.create_commands());
    gbuffer
}

fn delete_gbuffer(ctx: &mut Context, gbuffer: &GBuffer)
    ensures
        final(ctx)@ == old(ctx)@.record(gbuffer.delete_commands()),
{
    ctx.record(Command::DeleteTexture { texture: gbuffer.position });
    ctx.record(Command::DeleteTexture { texture: gbuffer.normal });
    ctx.record(Command::DeleteTexture { texture: gbuffer.color });
    ctx.record(Command::DeleteTexture { texture: gbuffer.depth });
    assert(ctx@.commands =~= old(ctx)@.commands + gbuffer.delete_commands());
}

/// The vertex shader of the light pass: one triangle over the whole target.
pub const LIGHT_VERTEX_SOURCE: &'static str = "
out vec2 uv;

void main()
{
    uv = vec2((gl_VertexID << 1) & 2, gl_VertexID & 2);
    gl_Position = vec4(uv * 2.0 - 1.0, 0.0, 1.0);
}
";

/// The fragment shader of the light pass: the share of one light, which
/// the blending adds to what is there.
pub const LIGHT_FRAGMENT_SOURCE: &'static str = "
uniform sampler2D positionMap;
uniform sampler2D normalMap;
uniform sampler2D colorMap;
uniform sampler2D depthMap;
uniform sampler2D shadowMap;
uniform int lightIndex;

layout (std140) uniform Lights
{
    vec4 data[41];
} lights;

layout (std140) uniform ShadowMatrix
{
    mat4 shadowMVP;
} shadow;

in vec2 uv;
layout (location = 0) out vec4 color;

vec3 shade(int index, vec3 position, vec3 normal, vec4 surface);

void main()
{
    gl_FragDepth = texture(depthMap, uv).r;
    vec4 position = texture(positionMap, uv);
    vec4 normal = texture(normalMap, uv);
    vec4 surface = texture(colorMap, uv);
    color = vec4(shade(lightIndex, position.xyz, normal.xyz, surface), 1.0);
}
";

/// What a pipeline is.
pub struct PipelineView {
    pub camera: Camera,
    pub lights: LightSetView,
    pub gbuffer: GBuffer,
    pub light_buffer: BufferId,
    pub light_program: ProgramId,
    pub clear_color: Vec4,
    pub phase: Phase,
}

impl PipelineView {
    /// Whether the attachments have the size of the camera's viewport.
    pub open spec fn viewport_matches(self) -> bool {
        self.camera.viewport.width == self.gbuffer.width && self.camera.viewport.height
            == self.gbuffer.height
    }

    /// The pipeline that is created in a context that gives out
    /// `next_handle` next: the attachments, the buffer of the lights, the
    /// buffer of the camera and the program of the light pass.
    pub open spec fn created_at(next_handle: u64, width: u32, height: u32, clear_color: Vec4)
        -> PipelineView {
        PipelineView {
            camera: Camera {
                viewport: Viewport { x: 0, y: 0, width, height },
                matrices: BufferId { raw: (next_handle + 5) as u64 },
            },
            lights: LightSetView::dark(),
            gbuffer: GBuffer::created_at(next_handle, width, height),
            light_buffer: BufferId { raw: (next_handle + 4) as u64 },
            light_program: ProgramId { raw: (next_handle + 6) as u64 },
            clear_color,
            phase: Phase::Idle,
        }
    }

    /// The commands that create the objects of the pipeline.
    pub open spec fn create_commands(self) -> Seq<CommandView> {
        self.gbuffer.create_commands() + seq![
            CommandView::CreateBuffer { buffer: self.light_buffer },
            CommandView::CreateBuffer { buffer: self.camera.matrices },
            CommandView::CreateProgram {
                program: self.light_program,
                vertex_source: LIGHT_VERTEX_SOURCE@,
                fragment_source: LIGHT_FRAGMENT_SOURCE@,
            },
        ]
    }

    /// The commands with which the geometry pass begins.
    pub open spec fn geometry_prologue(self) -> Seq<CommandView> {
        seq![
            CommandView::BindTarget { output: self.gbuffer.target() },
            CommandView::Clear { color: Some(self.clear_color), depth: true },
        ]
    }

    /// The commands with which the light pass begins: the screen is bound
    /// and cleared, the lights are uploaded, and the program of the pass is
    /// given the lights and the attachments.
    pub open spec fn light_prologue(self) -> Seq<CommandView> {
        seq![
            CommandView::BindTarget { output: RenderTarget::Screen },
            CommandView::Clear { color: Some(self.clear_color), depth: true },
        ] + upload_commands(
            BufferTarget::Uniform,
            self.light_buffer,
            Usage::Dynamic,
            self.lights.words(),
        ) + seq![
            CommandView::SetUniform {
                program: self.light_program,
                uniform: Uniform::Lights,
                value: UniformValue::Block(self.light_buffer),
            },
            CommandView::SetUniform {
                program: self.light_program,
                uniform: Uniform::PositionMap,
                value: UniformValue::Texture(self.gbuffer.position),
            },
            CommandView::SetUniform {
                program: self.light_program,
                uniform: Uniform::NormalMap,
                value: UniformValue::Texture(self.gbuffer.normal),
            },
            CommandView::SetUniform {
                program: self.light_program,
                uniform: Uniform::ColorMap,
                value: UniformValue::Texture(self.gbuffer.color),
            },
            CommandView::SetUniform {
                program: self.light_program,
                uniform: Uniform::DepthMap,
                value: UniformValue::Texture(self.gbuffer.depth),
            },
        ]
    }

    /// The share of the ambient light, which is added whatever it is set to.
    pub open spec fn ambient_share(self) -> Seq<CommandView> {
        contribution(self.light_program, self.camera.viewport, 0, true, None)
    }

    /// The shares of the directional lights in the first `n` slots. They
    /// have the numbers from 1 on.
    pub open spec fn directional_shares(self, n: nat) -> Seq<CommandView>
        decreases n,
    {
        if n == 0 {
            Seq::empty()
        } else {
            let light = self.lights.directional[n - 1];
            self.directional_shares((n - 1) as nat) + contribution(
                self.light_program,
                self.camera.viewport,
                n as u32,
                light.is_active(),
                light.shadow,
            )
        }
    }

    /// The shares of the point lights in the first `n` slots. They have the
    /// numbers that follow those of the directional lights, and no shadows.
    pub open spec fn point_shares(self, n: nat) -> Seq<CommandView>
        decreases n,
    {
        if n == 0 {
            Seq::empty()
        } else {
            let light = self.lights.point[n - 1];
            self.point_shares((n - 1) as nat) + contribution(
                self.light_program,
                self.camera.viewport,
                (MAX_NO_LIGHTS + n) as u32,
                light.is_active(),
                None,
            )
        }
    }

    /// The shares of the spot lights in the first `n` slots. They have the
    /// numbers that follow those of the point lights.
    pub open spec fn spot_shares(self, n: nat) -> Seq<CommandView>
        decreases n,
    {
        if n == 0 {
            Seq::empty()
        } else {
            let light = self.lights.spot[n - 1];
            self.spot_shares((n - 1) as nat) + contribution(
                self.light_program,
                self.camera.viewport,
                (2 * MAX_NO_LIGHTS + n) as u32,
                light.is_active(),
                light.shadow,
            )
        }
    }

    /// The commands of the light pass.
    pub open spec fn light_commands(self) -> Seq<CommandView> {
        self.light_prologue() + self.ambient_share() + self.directional_shares(
            MAX_NO_LIGHTS as nat,
        ) + self.point_shares(MAX_NO_LIGHTS as nat) + self.spot_shares(MAX_NO_LIGHTS as nat)
    }

    /// The commands that give the objects of the pipeline back.
    pub open spec fn delete_commands(self) -> Seq<CommandView> {
        delete_maps(self.lights.shadow_maps()) + self.gbuffer.delete_commands() + seq![
            CommandView::DeleteBuffer { buffer: self.light_buffer },
            CommandView::DeleteBuffer { buffer: self.camera.matrices },
            CommandView::DeleteProgram { program: self.light_program },
        ]
    }

    /// Whether the geometry pass may run, and if not, why not.
    pub open spec fn geometry_refusal(self) -> Option<Error> {
        if self.phase != Phase::ShadowPass {
            Some(Error::PipelineOutOfOrder)
        } else if !self.viewport_matches() {
            Some(Error::ViewportMismatch)
        } else {
            None
        }
    }

    /// Whether the light pass may run, and if not, why not: it needs the
    /// attachments that the geometry pass of this frame has filled.
    pub open spec fn light_refusal(self) -> Option<Error> {
        if self.phase != Phase::GeometryPass {
            Some(Error::PipelineOutOfOrder)
        } else if !self.viewport_matches() {
            Some(Error::ViewportMismatch)
        } else {
            None
        }
    }
}

/// The commands by which the light with the number `index` adds its share
/// to the image: a light that is not active adds nothing; one with a shadow
/// map has the map at hand.
pub open spec fn contribution(
    program: ProgramId,
    viewport: Viewport,
    index: u32,
    active: bool,
    shadow: Option<ShadowMap>,
) -> Seq<CommandView> {
    if !active {
        Seq::empty()
    } else {
        seq![
            CommandView::SetUniform {
                program,
                uniform: Uniform::LightIndex,
                value: UniformValue::Int(index),
            },
        ] + match shadow {
            Some(map) => seq![
                CommandView::SetUniform {
                    program,
                    uniform: Uniform::ShadowMap,
                    value: UniformValue::Texture(map.depth),
                },
                CommandView::SetUniform {
                    program,
                    uniform: Uniform::ShadowMatrix,
                    value: UniformValue::Block(map.camera.matrices),
                },
            ],
            None => Seq::empty(),
        } + seq![
            CommandView::Draw {
                program,
                states: RenderStates::spec_additive(),
                viewport,
                call: DrawCall::Arrays { vertices: 3, instances: 1 },
            },
        ]
    }
}

fn contribute(
    ctx: &mut Context,
    program: ProgramId,
    viewport: Viewport,
    index: u32,
    active: bool,
    shadow: Option<ShadowMap>,
)
    ensures
        final(ctx)@ == old(ctx)@.record(contribution(program, viewport, index, active, shadow)),
{
    if active {
        ctx.record(
            Command::SetUniform {
                program,
                uniform: Uniform::LightIndex,
                value: UniformValue::Int(index),
            },
        );
        match shadow {
            Some(map) => {
                ctx.record(
                    Command::SetUniform {
                        program,
                        uniform: Uniform::ShadowMap,
                        value: UniformValue::Texture(map.depth),
                    },
                );
                ctx.record(
                    Command::SetUniform {
                        program,
                        uniform: Uniform::ShadowMatrix,
                        value: UniformValue::Block(map.camera.matrices),
                    },
                );
            },
            None => {},
        }
        ctx.record(
            Command::Draw {
                program,
                states: RenderStates::additive(),
                viewport,
                call: DrawCall::Arrays { vertices: 3, instances: 1 },
            },
        );
    }
    assert(ctx@.commands =~= old(ctx)@.commands + contribution(
        program,
        viewport,
        index,
        active,
        shadow,
    ));
}

/// The commands that give the objects of `maps` back.
pub open spec fn delete_maps(maps: Seq<ShadowMap>) -> Seq<CommandView>
    decreases maps.len(),
{
    if maps.len() == 0 {
        Seq::empty()
    } else {
        delete_maps(maps.drop_last()) + maps.last().delete_commands()
    }
}

/// A light pass that does not follow the geometry pass of its frame is
/// refused as out of order, whatever the viewport.
pub proof fn lemma_light_pass_needs_geometry_pass(pipeline: PipelineView)
    requires
        pipeline.phase != Phase::GeometryPass,
    ensures
        pipeline.light_refusal() == Some(Error::PipelineOutOfOrder),
{
}

/// The commands with which the rendering of one shadow map begins.
pub open spec fn shadow_prologue(map: ShadowMap) -> Seq<CommandView> {
    seq![
        CommandView::BindTarget { output: RenderTarget::ShadowMap { depth: map.depth } },
        CommandView::Clear { color: None, depth: true },
    ]
}

/// One call of the rendering in a shadow pass: what it was called on, what
/// it left and what it returned.
pub struct ShadowStep {
    pub before_ctx: ContextView,
    pub before_cache: CacheView,
    pub after_ctx: ContextView,
    pub after_cache: CacheView,
    pub rendered: Result<(), Error>,
}

/// Whether `steps` make up a shadow pass over `maps` that takes the context
/// and the cache from `ctx` and `cache` to `end_ctx` and `end_cache` with the
/// outcome `done`: the maps are taken in order; each is bound and cleared on
/// what the step before it left, and then rendered into; a step that fails
/// is the last, and its error is the outcome; without a failure every map
/// has its step.
#[verifier::opaque]
pub open spec fn shadow_steps(
    maps: Seq<ShadowMap>,
    steps: Seq<ShadowStep>,
    ctx: ContextView,
    cache: CacheView,
    end_ctx: ContextView,
    end_cache: CacheView,
    done: Result<(), Error>,
) -> bool {
    &&& steps.len() <= maps.len()
    &&& forall|j: int|
        0 <= j < steps.len() ==> {
            let step = #[trigger] steps[j];
            &&& step.before_ctx == (if j == 0 {
                ctx
            } else {
                steps[j - 1].after_ctx
            }).record(shadow_prologue(maps[j]))
            &&& step.before_cache == if j == 0 {
                cache
            } else {
                steps[j - 1].after_cache
            }
            &&& step.rendered is Err ==> j == steps.len() - 1
        }
    &&& end_ctx == if steps.len() == 0 {
        ctx
    } else {
        steps.last().after_ctx
    }
    &&& end_cache == if steps.len() == 0 {
        cache
    } else {
        steps.last().after_cache
    }
    &&& if done is Ok {
        steps.len() == maps.len() && forall|j: int|
            0 <= j < steps.len() ==> (#[trigger] steps[j]).rendered is Ok
    } else {
        steps.len() >= 1 && steps.last().rendered == done
    }
}

/// Before its first step a pass has changed nothing.
proof fn lemma_no_shadow_step(maps: Seq<ShadowMap>, ctx: ContextView, cache: CacheView)
    ensures
        shadow_steps(maps.take(0), Seq::empty(), ctx, cache, ctx, cache, Ok::<(), Error>(())),
{
    reveal(shadow_steps);
}

/// A pass that has filled the first `i` maps goes on with the next: where
/// the step went well, it has filled one more; where it failed, the pass over
/// all maps ends there with the error of the step.
proof fn lemma_next_shadow_step(
    maps: Seq<ShadowMap>,
    steps: Seq<ShadowStep>,
    step: ShadowStep,
    ctx: ContextView,
    cache: CacheView,
    now_ctx: ContextView,
    now_cache: CacheView,
)
    requires
        steps.len() < maps.len(),
        shadow_steps(
            maps.take(steps.len() as int),
            steps,
            ctx,
            cache,
            now_ctx,
            now_cache,
            Ok::<(), Error>(()),
        ),
        step.before_ctx == now_ctx.record(shadow_prologue(maps[steps.len() as int])),
        step.before_cache == now_cache,
    ensures
        step.rendered is Ok ==> shadow_steps(
            maps.take(steps.len() as int + 1),
            steps.push(step),
            ctx,
            cache,
            step.after_ctx,
            step.after_cache,
            Ok::<(), Error>(()),
        ),
        step.rendered is Err ==> shadow_steps(
            maps,
            steps.push(step),
            ctx,
            cache,
            step.after_ctx,
            step.after_cache,
            step.rendered,
        ),
{
    reveal(shadow_steps);
    let i = steps.len() as int;
    let longer = steps.push(step);
    assert(steps.len() == maps.take(i).len());
    assert forall|j: int| 0 <= j < i implies longer[j] == steps[j] && (#[trigger] steps[j]).rendered
        is Ok by {}
    assert forall|j: int| 0 <= j < longer.len() implies {
        let at = #[trigger] longer[j];
        &&& at.before_ctx == (if j == 0 {
            ctx
        } else {
            longer[j - 1].after_ctx
        }).record(shadow_prologue(maps[j]))
        &&& at.before_cache == if j == 0 {
            cache
        } else {
            longer[j - 1].after_cache
        }
    } by {
        if j < i {
            assert(longer[j] == steps[j]);
            assert(maps.take(i)[j] == maps[j]);
            if j > 0 {
                assert(longer[j - 1] == steps[j - 1]);
            }
        } else if i > 0 {
            assert(longer[i - 1] == steps[i - 1]);
            assert(steps.last() == steps[i - 1]);
        }
    }
    assert forall|j: int| 0 <= j < longer.len() implies maps.take(i + 1)[j] == maps[j] by {}
}

/// Draws a frame in three passes: the scene from each light that casts
/// shadows, the scene into the attachments, and the lights over the
/// attachments.
pub struct DeferredPipeline {
    pub camera: Camera,
    lights: LightSet,
    gbuffer: GBuffer,
    light_buffer: BufferId,
    light_program: ProgramId,
    clear_color: Vec4,
    phase: Phase,
}

impl View for DeferredPipeline {
    type V = PipelineView;

    closed spec fn view(&self) -> PipelineView {
        PipelineView {
            camera: self.camera,
            lights: self.lights@,
            gbuffer: self.gbuffer,
            light_buffer: self.light_buffer,
            light_program: self.light_program,
            clear_color: self.clear_color,
            phase: self.phase,
        }
    }
}

impl DeferredPipeline {
    /// Creates a pipeline that renders frames of the given size. Where the
    /// context cannot create all seven objects, it creates none.
    pub fn new(ctx: &mut Context, width: u32, height: u32, clear_color: Vec4) -> (pipeline: Result<
        Self,
        Error,
    >)
        ensures
            old(ctx)@.remaining() < 7 ==> pipeline is Err && pipeline->Err_0
                == Error::ResourceCreationFailed && final(ctx)@ == old(ctx)@,
            old(ctx)@.remaining() >= 7 ==> pipeline is Ok && pipeline->Ok_0@
                == PipelineView::created_at(old(ctx)@.next_handle, width, height, clear_color)
                && final(ctx)@ == old(ctx)@.allocate(7).record(
                pipeline->Ok_0@.create_commands(),
            ),
    {
        if ctx.remaining() < 7 {
            return Err(Error::ResourceCreationFailed);
        }
        let gbuffer = create_gbuffer(ctx, width, height);
        let light_buffer = ctx.create_buffer().unwrap();
        let matrices = ctx.create_buffer().unwrap();
        let light_program = ctx.create_program(
            String::from_str(LIGHT_VERTEX_SOURCE),
            String::from_str(LIGHT_FRAGMENT_SOURCE),
        ).unwrap();
        let pipeline = DeferredPipeline {
            camera: Camera { viewport: Viewport { x: 0, y: 0, width, height }, matrices },
            lights: LightSet::new(),
            gbuffer,
            light_buffer,
            light_program,
            clear_color,
            phase: Phase::Idle,
        };
        assert(ctx@.commands =~= old(ctx)@.commands + pipeline@.create_commands());
        Ok(pipeline)
    }

    /// Gives the attachments a new size, and the camera's viewport with
    /// them. What the passes of this frame have rendered is lost: the frame
    /// starts over. Where the context cannot create the new attachments,
    /// nothing changes.
    pub fn resize(&mut self, ctx: &mut Context, width: u32, height: u32) -> (done: Result<(), Error>)
        ensures
            old(ctx)@.remaining() < 4 ==> done is Err && done->Err_0
                == Error::ResourceCreationFailed && final(ctx)@ == old(ctx)@ && final(self)@
                == old(self)@,
            old(ctx)@.remaining() >= 4 ==> done is Ok && final(self)@ == (PipelineView {
                camera: Camera {
                    viewport: Viewport { x: 0, y: 0, width, height },
                    matrices: old(self)@.camera.matrices,
                },
                gbuffer: GBuffer::created_at(old(ctx)@.next_handle, width, height),
                phase: Phase::Idle,
                ..old(self)@
            }) && final(ctx)@ == old(ctx)@.allocate(4).record(
                old(self)@.gbuffer.delete_commands() + final(self)@.gbuffer.create_commands(),
            ) && final(self)@.viewport_matches(),
    {
        if ctx.remaining() < 4 {
            return Err(Error::ResourceCreationFailed);
        }
        delete_gbuffer(ctx, &self.gbuffer);
        let gbuffer = create_gbuffer(ctx, width, height);
        assert(ctx@.commands =~= old(ctx)@.commands + (old(self)@.gbuffer.delete_commands()
            + gbuffer.create_commands()));
        self.gbuffer = gbuffer;
        self.camera = Camera {
            viewport: Viewport { x: 0, y: 0, width, height },
            matrices: self.camera.matrices,
        };
        self.phase = Phase::Idle;
        Ok(())
    }

    /// The pass that was completed last.
    pub fn phase(&self) -> (phase: Phase)
        ensures
            phase == self@.phase,
    {
        self.phase
    }

    pub fn gbuffer(&self) -> (gbuffer: GBuffer)
        ensures
            gbuffer == self@.gbuffer,
    {
        self.gbuffer
    }

    pub fn clear_color(&self) -> (color: Vec4)
        ensures
            color == self@.clear_color,
    {
        self.clear_color
    }

    /// The lights of the scene.
    pub fn lights(&self) -> (lights: &LightSet)
        ensures
            lights@ == self@.lights,
    {
        &self.lights
    }

    /// The ambient light, to set it.
    pub fn ambient_light(&mut self) -> (light: &mut AmbientLight)
        ensures
            *light == old(self)@.lights.ambient,
            final(self)@ == (PipelineView {
                lights: LightSetView { ambient: *final(light), ..old(self)@.lights },
                ..old(self)@
            }),
    {
        self.lights.ambient_light()
    }

    /// The directional light in the slot `index`, to set it.
    pub fn directional_light(&mut self, index: usize) -> (light: Result<
        &mut DirectionalLight,
        Error,
    >)
        ensures
            light is Ok <==> index < MAX_NO_LIGHTS,
            light is Err ==> light->Err_0 == Error::LightIndexOutOfRange && final(self)@ == old(
                self,
            )@,
            light is Ok ==> (*light->Ok_0)@ == old(self)@.lights.directional[index as int]
                && final(self)@ == (PipelineView {
                lights: LightSetView {
                    directional: old(self)@.lights.directional.update(
                        index as int,
                        (*final(light->Ok_0))@,
                    ),
                    ..old(self)@.lights
                },
                ..old(self)@
            }),
    {
        self.lights.directional_light(index)
    }

    /// The point light in the slot `index`, to set it.
    pub fn point_light(&mut self, index: usize) -> (light: Result<&mut PointLight, Error>)
        ensures
            light is Ok <==> index < MAX_NO_LIGHTS,
            light is Err ==> light->Err_0 == Error::LightIndexOutOfRange && final(self)@ == old(
                self,
            )@,
            light is Ok ==> *light->Ok_0 == old(self)@.lights.point[index as int] && final(self)@
                == (PipelineView {
                lights: LightSetView {
                    point: old(self)@.lights.point.update(index as int, *final(light->Ok_0)),
                    ..old(self)@.lights
                },
                ..old(self)@
            }),
    {
        self.lights.point_light(index)
    }

    /// The spot light in the slot `index`, to set it.
    pub fn spot_light(&mut self, index: usize) -> (light: Result<&mut SpotLight, Error>)
        ensures
            light is Ok <==> index < MAX_NO_LIGHTS,
            light is Err ==> light->Err_0 == Error::LightIndexOutOfRange && final(self)@ == old(
                self,
            )@,
            light is Ok ==> (*light->Ok_0)@ == old(self)@.lights.spot[index as int] && final(self)@
                == (PipelineView {
                lights: LightSetView {
                    spot: old(self)@.lights.spot.update(index as int, (*final(light->Ok_0))@),
                    ..old(self)@.lights
                },
                ..old(self)@
            }),
    {
        self.lights.spot_light(index)
    }
    /// Binds and clears one shadow map, for the scene to be rendered into.
    pub fn begin_shadow_map(ctx: &mut Context, map: &ShadowMap)
        ensures
            final(ctx)@ == old(ctx)@.record(shadow_prologue(*map)),
    {
        ctx.record(Command::BindTarget { output: RenderTarget::ShadowMap { depth: map.depth } });
        ctx.record(Command::Clear { color: None, depth: true });
        assert(ctx@.commands =~= old(ctx)@.commands + shadow_prologue(*map));
    }

    /// Checks that the geometry pass may run; if so, binds and clears the
    /// attachments.
    pub fn begin_geometry_pass(&self, ctx: &mut Context) -> (begun: Result<(), Error>)
        ensures
            match self@.geometry_refusal() {
                Some(error) => begun == Err::<(), Error>(error) && final(ctx)@ == old(ctx)@,
                None => begun is Ok && final(ctx)@ == old(ctx)@.record(self@.geometry_prologue()),
            },
    {
        if self.phase != Phase::ShadowPass {
            return Err(Error::PipelineOutOfOrder);
        }
        if self.camera.viewport.width != self.gbuffer.width || self.camera.viewport.height
            != self.gbuffer.height {
            return Err(Error::ViewportMismatch);
        }
        ctx.record(
            Command::BindTarget {
                output: RenderTarget::GBuffer {
                    position: self.gbuffer.position,
                    normal: self.gbuffer.normal,
                    color: self.gbuffer.color,
                    depth: self.gbuffer.depth,
                },
            },
        );
        ctx.record(Command::Clear { color: Some(self.clear_color), depth: true });
        assert(ctx@.commands =~= old(ctx)@.commands + self@.geometry_prologue());
        Ok(())
    }

    /// Ends a pass whose rendering gave `rendered`: where it went well,
    /// `pass` is completed; where it failed, the frame is given up and the
    /// error is handed on.
    pub fn finish_pass(&mut self, pass: Phase, rendered: Result<(), Error>) -> (done: Result<
        (),
        Error,
    >)
        ensures
            done == rendered,
            final(self)@ == (PipelineView {
                phase: if rendered is Ok {
                    pass
                } else {
                    Phase::Idle
                },
                ..old(self)@
            }),
    {
        self.phase = if rendered.is_ok() {
            pass
        } else {
            Phase::Idle
        };
        rendered
    }

    /// Fills the shadow map of each light that casts shadows: the map is
    /// bound and cleared, and `render_fn` renders the scene from the light.
    /// A light without a shadow map is passed over. The pass starts a frame,
    /// whatever came before; the first failure of `render_fn` ends it.
    pub fn shadow_pass<F>(
        &mut self,
        ctx: &mut Context,
        cache: &mut ProgramCache,
        render_fn: F,
    ) -> (done: Result<(), Error>) where
        F: Fn(&mut Context, &mut ProgramCache, &Camera) -> Result<(), Error>,

        requires
            forall|c: &mut Context, k: &mut ProgramCache, camera: &Camera|
                call_requires(render_fn, (c, k, camera)),
        ensures
            final(self)@ == (PipelineView {
                phase: if done is Ok {
                    Phase::ShadowPass
                } else {
                    Phase::Idle
                },
                ..old(self)@
            }),
            exists|steps: Seq<ShadowStep>|
                {
                    &&& shadow_steps(
                        old(self)@.lights.shadow_maps(),
                        steps,
                        old(ctx)@,
                        old(cache)@,
                        final(ctx)@,
                        final(cache)@,
                        done,
                    )
                    &&& forall|j: int|
                        0 <= j < steps.len() ==> {
                            let step = #[trigger] steps[j];
                            exists|c: &mut Context, k: &mut ProgramCache|
                                {
                                    &&& #[trigger] call_ensures(
                                        render_fn,
                                        (c, k, &old(self)@.lights.shadow_maps()[j].camera),
                                        step.rendered,
                                    )
                                    &&& (*c)@ == step.before_ctx
                                    &&& (*k)@ == step.before_cache
                                    &&& (*final(c))@ == step.after_ctx
                                    &&& (*final(k))@ == step.after_cache
                                }
                        }
                },
            old(self)@.lights.shadow_maps().len() == 0 ==> done is Ok && final(ctx)@ == old(ctx)@
                && final(cache)@ == old(cache)@,
    {
        let maps = self.lights.shadow_maps();
        let ghost mut steps: Seq<ShadowStep> = Seq::empty();
        proof {
            lemma_no_shadow_step(maps@, ctx@, cache@);
        }
        let mut i: usize = 0;
        while i < maps.len()
            invariant
                i <= maps.len(),
                forall|c: &mut Context, k: &mut ProgramCache, camera: &Camera|
                    call_requires(render_fn, (c, k, camera)),
                maps@ == old(self)@.lights.shadow_maps(),
                maps@.len() == 0 ==> ctx@ == old(ctx)@ && cache@ == old(cache)@,
                *self == *old(self),
                steps.len() == i,
                shadow_steps(
                    maps@.take(i as int),
                    steps,
                    old(ctx)@,
                    old(cache)@,
                    ctx@,
                    cache@,
                    Ok::<(), Error>(()),
                ),
                forall|j: int|
                    0 <= j < steps.len() ==> {
                        let step = #[trigger] steps[j];
                        exists|c: &mut Context, k: &mut ProgramCache|
                            {
                                &&& #[trigger] call_ensures(
                                    render_fn,
                                    (c, k, &maps@[j].camera),
                                    step.rendered,
                                )
                                &&& (*c)@ == step.before_ctx
                                &&& (*k)@ == step.before_cache
                                &&& (*final(c))@ == step.after_ctx
                                &&& (*final(k))@ == step.after_cache
                            }
                    },
            decreases maps.len() - i,
        {
            let ghost now_ctx = ctx@;
            let ghost now_cache = cache@;
            let ghost earlier = steps;
            Self::begin_shadow_map(ctx, &maps[i]);
            let ghost bound = ctx@;
            let rendered = render_fn(ctx, cache, &maps[i].camera);
            let ghost step = ShadowStep {
                before_ctx: bound,
                before_cache: now_cache,
                after_ctx: ctx@,
                after_cache: cache@,
                rendered,
            };
            proof {
                assert(exists|c: &mut Context, k: &mut ProgramCache|
                    {
                        &&& #[trigger] call_ensures(
                            render_fn,
                            (c, k, &maps@[i as int].camera),
                            step.rendered,
                        )
                        &&& (*c)@ == step.before_ctx
                        &&& (*k)@ == step.before_cache
                        &&& (*final(c))@ == step.after_ctx
                        &&& (*final(k))@ == step.after_cache
                    });
                steps = earlier.push(step);
                assert forall|j: int| 0 <= j < steps.len() implies {
                    let step = #[trigger] steps[j];
                    exists|c: &mut Context, k: &mut ProgramCache|
                        {
                            &&& #[trigger] call_ensures(
                                render_fn,
                                (c, k, &maps@[j].camera),
                                step.rendered,
                            )
                            &&& (*c)@ == step.before_ctx
                            &&& (*k)@ == step.before_cache
                            &&& (*final(c))@ == step.after_ctx
                            &&& (*final(k))@ == step.after_cache
                        }
                } by {
                    if j < i {
                        assert(steps[j] == earlier[j]);
                    } else {
                        assert(steps[j] == step);
                    }
                }
                lemma_next_shadow_step(
                    maps@,
                    earlier,
                    step,
                    old(ctx)@,
                    old(cache)@,
                    now_ctx,
                    now_cache,
                );
            }
            if rendered.is_err() {
                return self.finish_pass(Phase::ShadowPass, rendered);
            }
            i += 1;
        }
        proof {
            assert(maps@.take(i as int) =~= maps@);
        }
        self.finish_pass(Phase::ShadowPass, Ok(()))
    }

    /// Binds and clears the attachments and lets `render_fn` render the
    /// opaque geometry of the scene into them, seen from the camera of the
    /// pipeline. The pass needs the shadow pass of this frame before it and
    /// attachments of the size of the viewport; where it is refused, nothing
    /// is recorded and nothing changes. A failure of `render_fn` ends the
    /// frame.
    ///
    /// Where the pass runs, `render_fn` is called once, on the context in
    /// which the attachments are bound and cleared; what it leaves and what
    /// it returns is what the pass leaves and returns.
    pub fn geometry_pass<F>(
        &mut self,
        ctx: &mut Context,
        cache: &mut ProgramCache,
        render_fn: F,
    ) -> (done: Result<(), Error>) where
        F: FnOnce(&mut Context, &mut ProgramCache, &Camera) -> Result<(), Error>,

        requires
            forall|c: &mut Context, k: &mut ProgramCache, camera: &Camera|
                call_requires(render_fn, (c, k, camera)),
        ensures
            match old(self)@.geometry_refusal() {
                Some(error) => done == Err::<(), Error>(error) && final(self)@ == old(self)@
                    && final(ctx)@ == old(ctx)@ && final(cache)@ == old(cache)@,
                None => final(self)@ == (PipelineView {
                    phase: if done is Ok {
                        Phase::GeometryPass
                    } else {
                        Phase::Idle
                    },
                    ..old(self)@
                }) && exists|c: &mut Context, k: &mut ProgramCache|
                    {
                        &&& call_ensures(render_fn, (c, k, &old(self)@.camera), done)
                        &&& (*c)@ == old(ctx)@.record(old(self)@.geometry_prologue())
                        &&& (*k)@ == old(cache)@
                        &&& (*final(c))@ == final(ctx)@
                        &&& (*final(k))@ == final(cache)@
                    },
            },
    {
        match self.begin_geometry_pass(ctx) {
            Ok(()) => {},
            Err(e) => {
                return Err(e);
            },
        }
        let camera = self.camera;
        let rendered = render_fn(ctx, cache, &camera);
        self.finish_pass(Phase::GeometryPass, rendered)
    }

    /// Lights the frame: over the screen, the ambient light and then each
    /// active light adds its share, read from the attachments and, for a
    /// light that casts shadows, from its shadow map.
    ///
    /// The pass needs the geometry pass of this frame before it: without
    /// it, it is refused as out of order, and nothing is recorded.
    pub fn light_pass(&mut self, ctx: &mut Context) -> (done: Result<(), Error>)
        ensures
            match old(self)@.light_refusal() {
                Some(error) => done == Err::<(), Error>(error) && final(self)@ == old(self)@
                    && final(ctx)@ == old(ctx)@,
                None => done is Ok && final(self)@ == (PipelineView {
                    phase: Phase::LightPass,
                    ..old(self)@
                }) && final(ctx)@ == old(ctx)@.record(old(self)@.light_commands()),
            },
    {
        if self.phase != Phase::GeometryPass {
            return Err(Error::PipelineOutOfOrder);
        }
        if self.camera.viewport.width != self.gbuffer.width || self.camera.viewport.height
            != self.gbuffer.height {
            return Err(Error::ViewportMismatch);
        }
        let program = self.light_program;
        let viewport = self.camera.viewport;
        self.record_light_prologue(ctx);
        let ghost prologue = ctx@;
        contribute(ctx, program, viewport, 0, true, None);
        let ghost ambient = ctx@;
        let mut i: usize = 0;
        while i < MAX_NO_LIGHTS
            invariant
                i <= MAX_NO_LIGHTS,
                *self == *old(self),
                program == self@.light_program,
                viewport == self@.camera.viewport,
                ctx@ == ambient.record(self@.directional_shares(i as nat)),
            decreases MAX_NO_LIGHTS - i,
        {
            let light = match self.lights.directional(i) {
                Ok(light) => light,
                Err(_) => {
                    return Err(Error::LightIndexOutOfRange);
                },
            };
            let ghost before = ctx@;
            contribute(
                ctx,
                program,
                viewport,
                (i + 1) as u32,
                !light.intensity().is_zero(),
                light.shadow_map(),
            );
            assert(ctx@.commands =~= ambient.commands + self@.directional_shares((i + 1) as nat));
            i += 1;
        }
        let ghost directional = ctx@;
        let mut i: usize = 0;
        while i < MAX_NO_LIGHTS
            invariant
                i <= MAX_NO_LIGHTS,
                *self == *old(self),
                program == self@.light_program,
                viewport == self@.camera.viewport,
                ctx@ == directional.record(self@.point_shares(i as nat)),
            decreases MAX_NO_LIGHTS - i,
        {
            let light = match self.lights.point(i) {
                Ok(light) => light,
                Err(_) => {
                    return Err(Error::LightIndexOutOfRange);
                },
            };
            contribute(
                ctx,
                program,
                viewport,
                (MAX_NO_LIGHTS + i + 1) as u32,
                !light.intensity.is_zero(),
                None,
            );
            assert(ctx@.commands =~= directional.commands + self@.point_shares((i + 1) as nat));
            i += 1;
        }
        let ghost point = ctx@;
        let mut i: usize = 0;
        while i < MAX_NO_LIGHTS
            invariant
                i <= MAX_NO_LIGHTS,
                *self == *old(self),
                program == self@.light_program,
                viewport == self@.camera.viewport,
                ctx@ == point.record(self@.spot_shares(i as nat)),
            decreases MAX_NO_LIGHTS - i,
        {
            let light = match self.lights.spot(i) {
                Ok(light) => light,
                Err(_) => {
                    return Err(Error::LightIndexOutOfRange);
                },
            };
            contribute(
                ctx,
                program,
                viewport,
                (2 * MAX_NO_LIGHTS + i + 1) as u32,
                !light.intensity().is_zero(),
                light.shadow_map(),
            );
            assert(ctx@.commands =~= point.commands + self@.spot_shares((i + 1) as nat));
            i += 1;
        }
        assert(ctx@.commands =~= old(ctx)@.commands + old(self)@.light_commands());
        self.phase = Phase::LightPass;
        Ok(())
    }

    fn record_light_prologue(&self, ctx: &mut Context)
        ensures
            final(ctx)@ == old(ctx)@.record(self@.light_prologue()),
    {
        let program = self.light_program;
        ctx.record(Command::BindTarget { output: RenderTarget::Screen });
        ctx.record(Command::Clear { color: Some(self.clear_color), depth: true });
        ctx.record(
            Command::BindBuffer { target: BufferTarget::Uniform, buffer: self.light_buffer },
        );
        ctx.record(
            Command::BufferData {
                target: BufferTarget::Uniform,
                usage: Usage::Dynamic,
                data: self.lights.uniform_words(),
            },
        );
        ctx.record(Command::UnbindBuffer { target: BufferTarget::Uniform });
        ctx.record(
            Command::SetUniform {
                program,
                uniform: Uniform::Lights,
                value: UniformValue::Block(self.light_buffer),
            },
        );
        ctx.record(
            Command::SetUniform {
                program,
                uniform: Uniform::PositionMap,
                value: UniformValue::Texture(self.gbuffer.position),
            },
        );
        ctx.record(
            Command::SetUniform {
                program,
                uniform: Uniform::NormalMap,
                value: UniformValue::Texture(self.gbuffer.normal),
            },
        );
        ctx.record(
            Command::SetUniform {
                program,
                uniform: Uniform::ColorMap,
                value: UniformValue::Texture(self.gbuffer.color),
            },
        );
        ctx.record(
            Command::SetUniform {
                program,
                uniform: Uniform::DepthMap,
                value: UniformValue::Texture(self.gbuffer.depth),
            },
        );
        assert(ctx@.commands =~= old(ctx)@.commands + self@.light_prologue());
    }

    /// Gives the shadow maps of the lights and the objects of the pipeline
    /// back to the device.
    pub fn delete(self, ctx: &mut Context)
        ensures
            final(ctx)@ == old(ctx)@.record(self@.delete_commands()),
    {
        let maps = self.lights.shadow_maps();
        let mut i: usize = 0;
        while i < maps.len()
            invariant
                i <= maps.len(),
                ctx@ == old(ctx)@.record(delete_maps(maps@.take(i as int))),
            decreases maps.len() - i,
        {
            ctx.record(Command::DeleteTexture { texture: maps[i].depth });
            ctx.record(Command::DeleteBuffer { buffer: maps[i].camera.matrices });
            proof {
                assert(maps@.take(i + 1).drop_last() =~= maps@.take(i as int));
                assert(ctx@.commands =~= old(ctx)@.commands + delete_maps(maps@.take(i + 1)));
            }
            i += 1;
        }
        assert(maps@.take(maps.len() as int) =~= maps@);
        delete_gbuffer(ctx, &self.gbuffer);
        ctx.record(Command::DeleteBuffer { buffer: self.light_buffer });
        ctx.record(Command::DeleteBuffer { buffer: self.camera.matrices });
        ctx.record(Command::DeleteProgram { program: self.light_program });
        assert(ctx@.commands =~= old(ctx)@.commands + self@.delete_commands());
    }
}

} // verus!
