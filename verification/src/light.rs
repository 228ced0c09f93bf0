use crate::buffer::upload_commands;
use crate::camera::Camera;
use crate::context::{
    BufferId, BufferTarget, Command, CommandView, Context, ContextView, TextureId, TextureKind,
    Usage, Viewport,
};
use crate::error::Error;
use crate::math::{Mat4, Scalar, Vec3};
use vstd::prelude::*;

verus! {

/// The number of slots for each kind of light.
pub const MAX_NO_LIGHTS: usize = 4;

/// The width and the height of a shadow map.
pub const SHADOW_MAP_SIZE: u32 = 1024;

/// The depth image of the scene seen from a light, with the camera that
/// renders it.
#[derive(Debug, Clone, Copy, PartialEq, Eq, Structural)]
pub struct ShadowMap {
    pub depth: TextureId,
    pub camera: Camera,
}

impl ShadowMap {
    /// The shadow map whose two objects take the next two handles of a
    /// context that gives out `next_handle` next.
    pub open spec fn created_at(next_handle: u64) -> ShadowMap {
        ShadowMap {
            depth: TextureId { raw: next_handle },
            camera: Camera {
                viewport: Viewport { x: 0, y: 0, width: SHADOW_MAP_SIZE, height: SHADOW_MAP_SIZE },
                matrices: BufferId { raw: (next_handle + 1) as u64 },
            },
        }
    }

    /// The commands that give the objects of this shadow map back.
    pub open spec fn delete_commands(self) -> Seq<CommandView> {
        seq![
            CommandView::DeleteTexture { texture: self.depth },
            CommandView::DeleteBuffer { buffer: self.camera.matrices },
        ]
    }
}

/// The shadow map of a light after shadows were switched on: an existing
/// one is kept, a new one needs two handles.
pub open spec fn shadow_after_enable(shadow: Option<ShadowMap>, ctx: ContextView) -> Option<
    ShadowMap,
> {
    if shadow is Some {
        shadow
    } else if ctx.remaining() >= 2 {
        Some(ShadowMap::created_at(ctx.next_handle))
    } else {
        None
    }
}

/// The context after shadows were switched on with the light-space matrix
/// `light_space`.
pub open spec fn context_after_enable(
    shadow: Option<ShadowMap>,
    ctx: ContextView,
    light_space: Mat4,
) -> ContextView {
    if let Some(map) = shadow {
        ctx.record(
            upload_commands(
                BufferTarget::Uniform,
                map.camera.matrices,
                Usage::Dynamic,
                light_space.words(),
            ),
        )
    } else if ctx.remaining() >= 2 {
        let map = ShadowMap::created_at(ctx.next_handle);
        ctx.allocate(2).record(
            seq![
                CommandView::CreateTexture {
                    texture: map.depth,
                    kind: TextureKind::Depth,
                    width: SHADOW_MAP_SIZE,
                    height: SHADOW_MAP_SIZE,
                },
                CommandView::CreateBuffer { buffer: map.camera.matrices },
            ] + upload_commands(
                BufferTarget::Uniform,
                map.camera.matrices,
                Usage::Static,
                light_space.words(),
            ),
        )
    } else {
        ctx
    }
}

/// The context after shadows were switched off.
pub open spec fn context_after_disable(shadow: Option<ShadowMap>, ctx: ContextView)
    -> ContextView {
    if let Some(map) = shadow {
        ctx.record(map.delete_commands())
    } else {
        ctx
    }
}

/// Switching shadows on and at once off again gives back both objects that
/// were created for the shadow map: the record ends with the deletion of the
/// texture and the buffer with which it began.
pub proof fn lemma_enable_then_disable(ctx: ContextView, light_space: Mat4)
    requires
        ctx.remaining() >= 2,
    ensures
        ({
            let map = ShadowMap::created_at(ctx.next_handle);
            let enabled = shadow_after_enable(None, ctx);
            let created = context_after_enable(None, ctx, light_space);
            &&& enabled == Some(map)
            &&& context_after_disable(enabled, created) == ctx.allocate(2).record(
                seq![
                    CommandView::CreateTexture {
                        texture: map.depth,
                        kind: TextureKind::Depth,
                        width: SHADOW_MAP_SIZE,
                        height: SHADOW_MAP_SIZE,
                    },
                    CommandView::CreateBuffer { buffer: map.camera.matrices },
                ] + upload_commands(
                    BufferTarget::Uniform,
                    map.camera.matrices,
                    Usage::Static,
                    light_space.words(),
                ) + seq![
                    CommandView::DeleteTexture { texture: map.depth },
                    CommandView::DeleteBuffer { buffer: map.camera.matrices },
                ],
            )
        }),
{
    let map = ShadowMap::created_at(ctx.next_handle);
    let created = context_after_enable(None, ctx, light_space);
    assert(context_after_disable(Some(map), created).commands =~= ctx.commands + (seq![
        CommandView::CreateTexture {
            texture: map.depth,
            kind: TextureKind::Depth,
            width: SHADOW_MAP_SIZE,
            height: SHADOW_MAP_SIZE,
        },
        CommandView::CreateBuffer { buffer: map.camera.matrices },
    ] + upload_commands(
        BufferTarget::Uniform,
        map.camera.matrices,
        Usage::Static,
        light_space.words(),
    ) + seq![
        CommandView::DeleteTexture { texture: map.depth },
        CommandView::DeleteBuffer { buffer: map.camera.matrices },
    ]));
}

/// A light without shadows that has them switched on and off again is as
/// it was before.
pub proof fn lemma_toggle_restores_light(
    directional: DirectionalLightView,
    spot: SpotLightView,
    ctx: ContextView,
)
    requires
        directional.shadow is None,
        spot.shadow is None,
    ensures
        (DirectionalLightView {
            shadow: None,
            ..(DirectionalLightView { shadow: shadow_after_enable(None, ctx), ..directional })
        }) == directional,
        (SpotLightView {
            shadow: None,
            ..(SpotLightView { shadow: shadow_after_enable(None, ctx), ..spot })
        }) == spot,
{
}

fn enable(shadow: &mut Option<ShadowMap>, ctx: &mut Context, light_space: &Mat4) -> (done: Result<
    (),
    Error,
>)
    ensures
        *final(shadow) == shadow_after_enable(*old(shadow), old(ctx)@),
        final(ctx)@ == context_after_enable(*old(shadow), old(ctx)@, *light_space),
        done is Ok <==> (*final(shadow)) is Some,
        done is Err ==> done->Err_0 == Error::ResourceCreationFailed,
{
    match *shadow {
        Some(map) => {
            ctx.record(
                Command::BindBuffer { target: BufferTarget::Uniform, buffer: map.camera.matrices },
            );
            ctx.record(
                Command::BufferData {
                    target: BufferTarget::Uniform,
                    usage: Usage::Dynamic,
                    data: light_space.to_words(),
                },
            );
            ctx.record(Command::UnbindBuffer { target: BufferTarget::Uniform });
            assert(ctx@.commands =~= context_after_enable(
                *old(shadow),
                old(ctx)@,
                *light_space,
            ).commands);
            Ok(())
        },
        None => {
            if ctx.remaining() < 2 {
                return Err(Error::ResourceCreationFailed);
            }
            let depth = match ctx.create_texture(
                TextureKind::Depth,
                SHADOW_MAP_SIZE,
                SHADOW_MAP_SIZE,
            ) {
                Ok(depth) => depth,
                Err(e) => {
                    return Err(e);
                },
            };
            let matrices = match ctx.create_buffer() {
                Ok(matrices) => matrices,
                Err(e) => {
                    return Err(e);
                },
            };
            ctx.record(Command::BindBuffer { target: BufferTarget::Uniform, buffer: matrices });
            ctx.record(
                Command::BufferData {
                    target: BufferTarget::Uniform,
                    usage: Usage::Static,
                    data: light_space.to_words(),
                },
            );
            ctx.record(Command::UnbindBuffer { target: BufferTarget::Uniform });
            assert(ctx@.commands =~= context_after_enable(
                *old(shadow),
                old(ctx)@,
                *light_space,
            ).commands);
            let viewport = Viewport { x: 0, y: 0, width: SHADOW_MAP_SIZE, height: SHADOW_MAP_SIZE };
            *shadow = Some(ShadowMap { depth, camera: Camera { viewport, matrices } });
            Ok(())
        },
    }
}

fn disable(shadow: &mut Option<ShadowMap>, ctx: &mut Context)
    ensures
        *final(shadow) == None::<ShadowMap>,
        final(ctx)@ == context_after_disable(*old(shadow), old(ctx)@),
{
    match *shadow {
        Some(map) => {
            ctx.record(Command::DeleteTexture { texture: map.depth });
            ctx.record(Command::DeleteBuffer { buffer: map.camera.matrices });
            assert(ctx@.commands =~= old(ctx)@.commands + map.delete_commands());
            *shadow = None;
        },
        None => {},
    }
}

/// Light from everywhere.
#[derive(Debug, Clone, Copy, PartialEq, Eq, Structural)]
pub struct AmbientLight {
    pub intensity: Scalar,
    pub color: Vec3,
}

/// What a directional light is set to.
pub struct DirectionalLightView {
    pub direction: Vec3,
    pub intensity: Scalar,
    pub color: Vec3,
    pub shadow: Option<ShadowMap>,
}

/// Light from one direction, as from the sun.
#[derive(Debug)]
pub struct DirectionalLight {
    direction: Vec3,
    intensity: Scalar,
    color: Vec3,
    shadow: Option<ShadowMap>,
}

impl View for DirectionalLight {
    type V = DirectionalLightView;

    closed spec fn view(&self) -> DirectionalLightView {
        DirectionalLightView {
            direction: self.direction,
            intensity: self.intensity,
            color: self.color,
            shadow: self.shadow,
        }
    }
}

/// What a point light is set to.
#[derive(Debug, Clone, Copy, PartialEq, Eq, Structural)]
pub struct PointLight {
    pub position: Vec3,
    pub intensity: Scalar,
    pub color: Vec3,
    pub attenuation: Vec3,
}

/// What a spot light is set to.
pub struct SpotLightView {
    pub position: Vec3,
    pub direction: Vec3,
    pub cutoff: Scalar,
    pub intensity: Scalar,
    pub color: Vec3,
    pub shadow: Option<ShadowMap>,
}

/// Light from one point within a cone.
#[derive(Debug)]
pub struct SpotLight {
    position: Vec3,
    direction: Vec3,
    cutoff: Scalar,
    intensity: Scalar,
    color: Vec3,
    shadow: Option<ShadowMap>,
}

impl View for SpotLight {
    type V = SpotLightView;

    closed spec fn view(&self) -> SpotLightView {
        SpotLightView {
            position: self.position,
            direction: self.direction,
            cutoff: self.cutoff,
            intensity: self.intensity,
            color: self.color,
            shadow: self.shadow,
        }
    }
}

impl DirectionalLightView {
    /// A light that is switched off: no intensity, no shadow map.
    pub open spec fn dark() -> DirectionalLightView {
        DirectionalLightView {
            direction: Vec3::spec_zero(),
            intensity: Scalar::spec_zero(),
            color: Vec3::spec_zero(),
            shadow: None,
        }
    }
}

impl SpotLightView {
    /// A light that is switched off: no intensity, no shadow map.
    pub open spec fn dark() -> SpotLightView {
        SpotLightView {
            position: Vec3::spec_zero(),
            direction: Vec3::spec_zero(),
            cutoff: Scalar::spec_zero(),
            intensity: Scalar::spec_zero(),
            color: Vec3::spec_zero(),
            shadow: None,
        }
    }
}

impl DirectionalLight {
    /// A light that is switched off.
    pub fn new() -> (light: DirectionalLight)
        ensures
            light@ == DirectionalLightView::dark(),
    {
        DirectionalLight {
            direction: Vec3::zero(),
            intensity: Scalar::zero(),
            color: Vec3::zero(),
            shadow: None,
        }
    }

    /// Sets how bright the light is. The passes that follow see the change.
    pub fn set_intensity(&mut self, intensity: Scalar)
        ensures
            final(self)@ == (DirectionalLightView { intensity, ..old(self)@ }),
    {
        self.intensity = intensity;
    }

    pub fn set_color(&mut self, color: &Vec3)
        ensures
            final(self)@ == (DirectionalLightView { color: *color, ..old(self)@ }),
    {
        self.color = *color;
    }

    pub fn set_direction(&mut self, direction: &Vec3)
        ensures
            final(self)@ == (DirectionalLightView { direction: *direction, ..old(self)@ }),
    {
        self.direction = *direction;
    }

    pub fn intensity(&self) -> (intensity: Scalar)
        ensures
            intensity == self@.intensity,
    {
        self.intensity
    }

    pub fn color(&self) -> (color: Vec3)
        ensures
            color == self@.color,
    {
        self.color
    }

    pub fn direction(&self) -> (direction: Vec3)
        ensures
            direction == self@.direction,
    {
        self.direction
    }

    /// The shadow map, where shadows are switched on.
    pub fn shadow_map(&self) -> (shadow: Option<ShadowMap>)
        ensures
            shadow == self@.shadow,
    {
        self.shadow
    }

    /// Gives the light a shadow map, into which the shadow pass renders the
    /// scene through `light_space`. A light that has one keeps it and takes
    /// the new matrix.
    pub fn enable_shadows(&mut self, ctx: &mut Context, light_space: &Mat4) -> (done: Result<
        (),
        Error,
    >)
        ensures
            final(self)@ == (DirectionalLightView {
                shadow: shadow_after_enable(old(self)@.shadow, old(ctx)@),
                ..old(self)@
            }),
            final(ctx)@ == context_after_enable(old(self)@.shadow, old(ctx)@, *light_space),
            done is Ok <==> final(self)@.shadow is Some,
            done is Err ==> done->Err_0 == Error::ResourceCreationFailed,
    {
        enable(&mut self.shadow, ctx, light_space)
    }

    /// Takes the shadow map from the light and gives its objects back.
    pub fn disable_shadows(&mut self, ctx: &mut Context)
        ensures
            final(self)@ == (DirectionalLightView { shadow: None, ..old(self)@ }),
            final(ctx)@ == context_after_disable(old(self)@.shadow, old(ctx)@),
    {
        disable(&mut self.shadow, ctx)
    }

    pub fn is_shadows_enabled(&self) -> (enabled: bool)
        ensures
            enabled == self@.shadow is Some,
    {
        self.shadow.is_some()
    }
}

impl SpotLight {
    /// A light that is switched off.
    pub fn new() -> (light: SpotLight)
        ensures
            light@ == SpotLightView::dark(),
    {
        SpotLight {
            position: Vec3::zero(),
            direction: Vec3::zero(),
            cutoff: Scalar::zero(),
            intensity: Scalar::zero(),
            color: Vec3::zero(),
            shadow: None,
        }
    }

    /// Sets how bright the light is. The passes that follow see the change.
    pub fn set_intensity(&mut self, intensity: Scalar)
        ensures
            final(self)@ == (SpotLightView { intensity, ..old(self)@ }),
    {
        self.intensity = intensity;
    }

    pub fn set_color(&mut self, color: &Vec3)
        ensures
            final(self)@ == (SpotLightView { color: *color, ..old(self)@ }),
    {
        self.color = *color;
    }

    pub fn set_position(&mut self, position: &Vec3)
        ensures
            final(self)@ == (SpotLightView { position: *position, ..old(self)@ }),
    {
        self.position = *position;
    }

    pub fn set_direction(&mut self, direction: &Vec3)
        ensures
            final(self)@ == (SpotLightView { direction: *direction, ..old(self)@ }),
    {
        self.direction = *direction;
    }

    /// Sets the half angle of the cone.
    pub fn set_cutoff(&mut self, cutoff: Scalar)
        ensures
            final(self)@ == (SpotLightView { cutoff, ..old(self)@ }),
    {
        self.cutoff = cutoff;
    }

    pub fn intensity(&self) -> (intensity: Scalar)
        ensures
            intensity == self@.intensity,
    {
        self.intensity
    }

    pub fn color(&self) -> (color: Vec3)
        ensures
            color == self@.color,
    {
        self.color
    }

    pub fn position(&self) -> (position: Vec3)
        ensures
            position == self@.position,
    {
        self.position
    }

    pub fn direction(&self) -> (direction: Vec3)
        ensures
            direction == self@.direction,
    {
        self.direction
    }

    pub fn cutoff(&self) -> (cutoff: Scalar)
        ensures
            cutoff == self@.cutoff,
    {
        self.cutoff
    }

    /// The shadow map, where shadows are switched on.
    pub fn shadow_map(&self) -> (shadow: Option<ShadowMap>)
        ensures
            shadow == self@.shadow,
    {
        self.shadow
    }

    /// Gives the light a shadow map, into which the shadow pass renders the
    /// scene through `light_space`. A light that has one keeps it and takes
    /// the new matrix.
    pub fn enable_shadows(&mut self, ctx: &mut Context, light_space: &Mat4) -> (done: Result<
        (),
        Error,
    >)
        ensures
            final(self)@ == (SpotLightView {
                shadow: shadow_after_enable(old(self)@.shadow, old(ctx)@),
                ..old(self)@
            }),
            final(ctx)@ == context_after_enable(old(self)@.shadow, old(ctx)@, *light_space),
            done is Ok <==> final(self)@.shadow is Some,
            done is Err ==> done->Err_0 == Error::ResourceCreationFailed,
    {
        enable(&mut self.shadow, ctx, light_space)
    }

    /// Takes the shadow map from the light and gives its objects back.
    pub fn disable_shadows(&mut self, ctx: &mut Context)
        ensures
            final(self)@ == (SpotLightView { shadow: None, ..old(self)@ }),
            final(ctx)@ == context_after_disable(old(self)@.shadow, old(ctx)@),
    {
        disable(&mut self.shadow, ctx)
    }

    pub fn is_shadows_enabled(&self) -> (enabled: bool)
        ensures
            enabled == self@.shadow is Some,
    {
        self.shadow.is_some()
    }
}

/// What a set of lights holds: for each kind, the light in each slot.
pub struct LightSetView {
    pub ambient: AmbientLight,
    pub directional: Seq<DirectionalLightView>,
    pub point: Seq<PointLight>,
    pub spot: Seq<SpotLightView>,
}

/// The lights of a scene: the ambient light and a fixed number of slots for
/// each other kind. A light that is not used stays dark.
#[derive(Debug)]
pub struct LightSet {
    ambient: AmbientLight,
    directional: [DirectionalLight; MAX_NO_LIGHTS],
    point: [PointLight; MAX_NO_LIGHTS],
    spot: [SpotLight; MAX_NO_LIGHTS],
}

impl View for LightSet {
    type V = LightSetView;

    closed spec fn view(&self) -> LightSetView {
        LightSetView {
            ambient: self.ambient,
            directional: self.directional@.map_values(|light: DirectionalLight| light@),
            point: self.point@,
            spot: self.spot@.map_values(|light: SpotLight| light@),
        }
    }
}

impl AmbientLight {
    /// Sets how bright the light is. The passes that follow see the change.
    pub fn set_intensity(&mut self, intensity: Scalar)
        ensures
            *final(self) == (AmbientLight { intensity, ..*old(self) }),
    {
        self.intensity = intensity;
    }

    pub fn set_color(&mut self, color: &Vec3)
        ensures
            *final(self) == (AmbientLight { color: *color, ..*old(self) }),
    {
        self.color = *color;
    }
}

impl PointLight {
    /// Sets how bright the light is. The passes that follow see the change.
    pub fn set_intensity(&mut self, intensity: Scalar)
        ensures
            *final(self) == (PointLight { intensity, ..*old(self) }),
    {
        self.intensity = intensity;
    }

    pub fn set_color(&mut self, color: &Vec3)
        ensures
            *final(self) == (PointLight { color: *color, ..*old(self) }),
    {
        self.color = *color;
    }

    pub fn set_position(&mut self, position: &Vec3)
        ensures
            *final(self) == (PointLight { position: *position, ..*old(self) }),
    {
        self.position = *position;
    }

    /// Sets the constant, linear and quadratic terms by which the light
    /// fades with distance.
    pub fn set_attenuation(&mut self, attenuation: &Vec3)
        ensures
            *final(self) == (PointLight { attenuation: *attenuation, ..*old(self) }),
    {
        self.attenuation = *attenuation;
    }

    pub open spec fn dark() -> PointLight {
        PointLight {
            position: Vec3::spec_zero(),
            intensity: Scalar::spec_zero(),
            color: Vec3::spec_zero(),
            attenuation: Vec3::spec_zero(),
        }
    }
}

impl LightSetView {
    /// All lights dark.
    pub open spec fn dark() -> LightSetView {
        LightSetView {
            ambient: AmbientLight { intensity: Scalar::spec_zero(), color: Vec3::spec_zero() },
            directional: Seq::new(MAX_NO_LIGHTS as nat, |i: int| DirectionalLightView::dark()),
            point: Seq::new(MAX_NO_LIGHTS as nat, |i: int| PointLight::dark()),
            spot: Seq::new(MAX_NO_LIGHTS as nat, |i: int| SpotLightView::dark()),
        }
    }

}

impl LightSet {
    /// A set of dark lights.
    pub fn new() -> (lights: LightSet)
        ensures
            lights@ == LightSetView::dark(),
    {
        let dark = PointLight {
            position: Vec3::zero(),
            intensity: Scalar::zero(),
            color: Vec3::zero(),
            attenuation: Vec3::zero(),
        };
        let lights = LightSet {
            ambient: AmbientLight { intensity: Scalar::zero(), color: Vec3::zero() },
            directional: [
                DirectionalLight::new(),
                DirectionalLight::new(),
                DirectionalLight::new(),
                DirectionalLight::new(),
            ],
            point: [dark, dark, dark, dark],
            spot: [SpotLight::new(), SpotLight::new(), SpotLight::new(), SpotLight::new()],
        };
        assert(lights@.directional =~= LightSetView::dark().directional);
        assert(lights@.point =~= LightSetView::dark().point);
        assert(lights@.spot =~= LightSetView::dark().spot);
        lights
    }

    /// The ambient light, to set it.
    pub fn ambient_light(&mut self) -> (light: &mut AmbientLight)
        ensures
            *light == old(self)@.ambient,
            final(self)@ == (LightSetView { ambient: *final(light), ..old(self)@ }),
    {
        &mut self.ambient
    }

    /// The directional light in the slot `index`, to set it.
    pub fn directional_light(&mut self, index: usize) -> (light: Result<
        &mut DirectionalLight,
        Error,
    >)
        ensures
            light is Ok <==> index < MAX_NO_LIGHTS,
            light is Err ==> light->Err_0 == Error::LightIndexOutOfRange && final(self)@ == old(
                self,
            )@,
            light is Ok ==> (*light->Ok_0)@ == old(self)@.directional[index as int] && final(self)@
                == (LightSetView {
                directional: old(self)@.directional.update(index as int, (*final(light->Ok_0))@),
                ..old(self)@
            }),
    {
        if index < MAX_NO_LIGHTS {
            proof {
                let view = |light: DirectionalLight| light@;
                assert forall|lights: Seq<DirectionalLight>, light: DirectionalLight|
                    index < lights.len() implies #[trigger] lights.update(
                    index as int,
                    light,
                ).map_values(view) == lights.map_values(view).update(index as int, light@) by {
                    assert(lights.update(index as int, light).map_values(view)
                        =~= lights.map_values(view).update(index as int, light@));
                }
            }
            Ok(&mut self.directional[index])
        } else {
            Err(Error::LightIndexOutOfRange)
        }
    }

    /// The point light in the slot `index`, to set it.
    pub fn point_light(&mut self, index: usize) -> (light: Result<&mut PointLight, Error>)
        ensures
            light is Ok <==> index < MAX_NO_LIGHTS,
            light is Err ==> light->Err_0 == Error::LightIndexOutOfRange && final(self)@ == old(
                self,
            )@,
            light is Ok ==> *light->Ok_0 == old(self)@.point[index as int] && final(self)@ == (
            LightSetView {
                point: old(self)@.point.update(index as int, *final(light->Ok_0)),
                ..old(self)@
            }),
    {
        if index < MAX_NO_LIGHTS {
            Ok(&mut self.point[index])
        } else {
            Err(Error::LightIndexOutOfRange)
        }
    }

    /// The spot light in the slot `index`, to set it.
    pub fn spot_light(&mut self, index: usize) -> (light: Result<&mut SpotLight, Error>)
        ensures
            light is Ok <==> index < MAX_NO_LIGHTS,
            light is Err ==> light->Err_0 == Error::LightIndexOutOfRange && final(self)@ == old(
                self,
            )@,
            light is Ok ==> (*light->Ok_0)@ == old(self)@.spot[index as int] && final(self)@ == (
            LightSetView {
                spot: old(self)@.spot.update(index as int, (*final(light->Ok_0))@),
                ..old(self)@
            }),
    {
        if index < MAX_NO_LIGHTS {
            proof {
                let view = |light: SpotLight| light@;
                assert forall|lights: Seq<SpotLight>, light: SpotLight|
                    index < lights.len() implies #[trigger] lights.update(
                    index as int,
                    light,
                ).map_values(view) == lights.map_values(view).update(index as int, light@) by {
                    assert(lights.update(index as int, light).map_values(view)
                        =~= lights.map_values(view).update(index as int, light@));
                }
            }
            Ok(&mut self.spot[index])
        } else {
            Err(Error::LightIndexOutOfRange)
        }
    }

    /// The ambient light.
    pub fn ambient(&self) -> (light: &AmbientLight)
        ensures
            *light == self@.ambient,
    {
        &self.ambient
    }

    /// The directional light in the slot `index`.
    pub fn directional(&self, index: usize) -> (light: Result<&DirectionalLight, Error>)
        ensures
            light is Ok <==> index < MAX_NO_LIGHTS,
            light is Err ==> light->Err_0 == Error::LightIndexOutOfRange,
            light is Ok ==> light->Ok_0@ == self@.directional[index as int],
    {
        if index < MAX_NO_LIGHTS {
            Ok(&self.directional[index])
        } else {
            Err(Error::LightIndexOutOfRange)
        }
    }

    /// The point light in the slot `index`.
    pub fn point(&self, index: usize) -> (light: Result<&PointLight, Error>)
        ensures
            light is Ok <==> index < MAX_NO_LIGHTS,
            light is Err ==> light->Err_0 == Error::LightIndexOutOfRange,
            light is Ok ==> *light->Ok_0 == self@.point[index as int],
    {
        if index < MAX_NO_LIGHTS {
            Ok(&self.point[index])
        } else {
            Err(Error::LightIndexOutOfRange)
        }
    }

    /// The spot light in the slot `index`.
    pub fn spot(&self, index: usize) -> (light: Result<&SpotLight, Error>)
        ensures
            light is Ok <==> index < MAX_NO_LIGHTS,
            light is Err ==> light->Err_0 == Error::LightIndexOutOfRange,
            light is Ok ==> light->Ok_0@ == self@.spot[index as int],
    {
        if index < MAX_NO_LIGHTS {
            Ok(&self.spot[index])
        } else {
            Err(Error::LightIndexOutOfRange)
        }
    }
}

/// The word that tells a shader whether a light has a shadow map.
pub open spec fn shadow_flag(shadow: Option<ShadowMap>) -> u32 {
    if shadow is Some {
        1
    } else {
        0
    }
}

fn push_vec3(out: &mut Vec<u32>, v: &Vec3)
    ensures
        final(out)@ == old(out)@ + v.words(),
{
    out.push(v.x.bits);
    out.push(v.y.bits);
    out.push(v.z.bits);
    assert(out@ =~= old(out)@ + v.words());
}

impl AmbientLight {
    /// The ambient light as the shader reads it: color, then intensity.
    pub open spec fn words(self) -> Seq<u32> {
        self.color.words() + seq![self.intensity.bits]
    }

    fn push_words(&self, out: &mut Vec<u32>)
        ensures
            final(out)@ == old(out)@ + self.words(),
    {
        push_vec3(out, &self.color);
        out.push(self.intensity.bits);
        assert(out@ =~= old(out)@ + self.words());
    }
}

impl DirectionalLightView {
    /// Whether the light adds anything to the image.
    pub open spec fn is_active(self) -> bool {
        !self.intensity.spec_is_zero()
    }

    /// The light as the shader reads it: color, intensity, direction,
    /// shadow flag.
    pub open spec fn words(self) -> Seq<u32> {
        self.color.words() + seq![self.intensity.bits] + self.direction.words() + seq![
            shadow_flag(self.shadow),
        ]
    }
}

impl DirectionalLight {
    fn push_words(&self, out: &mut Vec<u32>)
        ensures
            final(out)@ == old(out)@ + self@.words(),
    {
        push_vec3(out, &self.color);
        out.push(self.intensity.bits);
        push_vec3(out, &self.direction);
        out.push(if self.shadow.is_some() { 1 } else { 0 });
        assert(out@ =~= old(out)@ + self@.words());
    }
}

impl PointLight {
    /// Whether the light adds anything to the image.
    pub open spec fn is_active(self) -> bool {
        !self.intensity.spec_is_zero()
    }

    /// The light as the shader reads it: color, intensity, position, a
    /// padding word, attenuation, a padding word.
    pub open spec fn words(self) -> Seq<u32> {
        self.color.words() + seq![self.intensity.bits] + self.position.words() + seq![0u32]
            + self.attenuation.words() + seq![0u32]
    }

    fn push_words(&self, out: &mut Vec<u32>)
        ensures
            final(out)@ == old(out)@ + self.words(),
    {
        push_vec3(out, &self.color);
        out.push(self.intensity.bits);
        push_vec3(out, &self.position);
        out.push(0);
        push_vec3(out, &self.attenuation);
        out.push(0);
        assert(out@ =~= old(out)@ + self.words());
    }
}

impl SpotLightView {
    /// Whether the light adds anything to the image.
    pub open spec fn is_active(self) -> bool {
        !self.intensity.spec_is_zero()
    }

    /// The light as the shader reads it: color, intensity, position,
    /// cutoff, direction, shadow flag.
    pub open spec fn words(self) -> Seq<u32> {
        self.color.words() + seq![self.intensity.bits] + self.position.words() + seq![
            self.cutoff.bits,
        ] + self.direction.words() + seq![shadow_flag(self.shadow)]
    }
}

impl SpotLight {
    fn push_words(&self, out: &mut Vec<u32>)
        ensures
            final(out)@ == old(out)@ + self@.words(),
    {
        push_vec3(out, &self.color);
        out.push(self.intensity.bits);
        push_vec3(out, &self.position);
        out.push(self.cutoff.bits);
        push_vec3(out, &self.direction);
        out.push(if self.shadow.is_some() { 1 } else { 0 });
        assert(out@ =~= old(out)@ + self@.words());
    }
}

impl LightSetView {
    /// All lights as the shader reads them: the ambient light, then the
    /// directional, the point and the spot lights, slot after slot.
    pub open spec fn words(self) -> Seq<u32> {
        self.ambient.words() + self.directional[0].words() + self.directional[1].words()
            + self.directional[2].words() + self.directional[3].words() + self.point[0].words()
            + self.point[1].words() + self.point[2].words() + self.point[3].words()
            + self.spot[0].words() + self.spot[1].words() + self.spot[2].words()
            + self.spot[3].words()
    }

    /// The shadow maps of the lights that cast shadows: those of the
    /// directional lights, then those of the spot lights, slot after slot.
    /// A light without a shadow map has no part in it.
    pub open spec fn shadow_maps(self) -> Seq<ShadowMap> {
        self.directional.map_values(|light: DirectionalLightView| light.shadow).add(
            self.spot.map_values(|light: SpotLightView| light.shadow),
        ).filter(|shadow: Option<ShadowMap>| shadow is Some).map_values(
            |shadow: Option<ShadowMap>| shadow->0,
        )
    }
}

impl LightSet {
    /// The words of all lights, ready for upload.
    pub fn uniform_words(&self) -> (words: Vec<u32>)
        ensures
            words@ == self@.words(),
    {
        let mut words: Vec<u32> = Vec::new();
        self.ambient.push_words(&mut words);
        self.directional[0].push_words(&mut words);
        self.directional[1].push_words(&mut words);
        self.directional[2].push_words(&mut words);
        self.directional[3].push_words(&mut words);
        self.point[0].push_words(&mut words);
        self.point[1].push_words(&mut words);
        self.point[2].push_words(&mut words);
        self.point[3].push_words(&mut words);
        self.spot[0].push_words(&mut words);
        self.spot[1].push_words(&mut words);
        self.spot[2].push_words(&mut words);
        self.spot[3].push_words(&mut words);
        assert(words@ =~= self@.words());
        words
    }

    /// The shadow maps of the lights that cast shadows, in the order in
    /// which the shadow pass fills them.
    pub fn shadow_maps(&self) -> (maps: Vec<ShadowMap>)
        ensures
            maps@ == self@.shadow_maps(),
    {
        let ghost shadows = self@.directional.map_values(
            |light: DirectionalLightView| light.shadow,
        ).add(self@.spot.map_values(|light: SpotLightView| light.shadow));
        let ghost wanted = |shadow: Option<ShadowMap>| shadow is Some;
        let ghost unwrap = |shadow: Option<ShadowMap>| shadow->0;
        let mut maps: Vec<ShadowMap> = Vec::new();
        let mut i: usize = 0;
        while i < MAX_NO_LIGHTS
            invariant
                i <= MAX_NO_LIGHTS,
                shadows == self@.directional.map_values(
                    |light: DirectionalLightView| light.shadow,
                ).add(self@.spot.map_values(|light: SpotLightView| light.shadow)),
                wanted == |shadow: Option<ShadowMap>| shadow is Some,
                unwrap == |shadow: Option<ShadowMap>| shadow->0,
                maps@ == shadows.take(i as int).filter(wanted).map_values(unwrap),
            decreases MAX_NO_LIGHTS - i,
        {
            proof {
                lemma_filter_step(shadows, i as int);
            }
            match self.directional[i].shadow {
                Some(map) => {
                    maps.push(map);
                },
                None => {},
            }
            i += 1;
        }
        let mut j: usize = 0;
        while j < MAX_NO_LIGHTS
            invariant
                j <= MAX_NO_LIGHTS,
                shadows == self@.directional.map_values(
                    |light: DirectionalLightView| light.shadow,
                ).add(self@.spot.map_values(|light: SpotLightView| light.shadow)),
                wanted == |shadow: Option<ShadowMap>| shadow is Some,
                unwrap == |shadow: Option<ShadowMap>| shadow->0,
                maps@ == shadows.take(MAX_NO_LIGHTS + j).filter(wanted).map_values(unwrap),
            decreases MAX_NO_LIGHTS - j,
        {
            proof {
                lemma_filter_step(shadows, MAX_NO_LIGHTS + j);
            }
            match self.spot[j].shadow {
                Some(map) => {
                    maps.push(map);
                },
                None => {},
            }
            j += 1;
        }
        assert(shadows.take(2 * MAX_NO_LIGHTS) =~= shadows);
        maps
    }
}

proof fn lemma_nothing_wanted(shadows: Seq<Option<ShadowMap>>)
    requires
        forall|i: int| 0 <= i < shadows.len() ==> shadows[i] is None,
    ensures
        shadows.filter(|shadow: Option<ShadowMap>| shadow is Some).len() == 0,
    decreases shadows.len(),
{
    reveal(Seq::filter);
    if shadows.len() > 0 {
        lemma_nothing_wanted(shadows.drop_last());
    }
}

/// Lights without shadow maps give the shadow pass nothing to fill.
pub proof fn lemma_no_shadow_maps(lights: LightSetView)
    requires
        forall|i: int| 0 <= i < lights.directional.len() ==> lights.directional[i].shadow is None,
        forall|i: int| 0 <= i < lights.spot.len() ==> lights.spot[i].shadow is None,
    ensures
        lights.shadow_maps().len() == 0,
{
    lemma_nothing_wanted(
        lights.directional.map_values(|light: DirectionalLightView| light.shadow).add(
            lights.spot.map_values(|light: SpotLightView| light.shadow),
        ),
    );
}

/// Taking one more shadow into account adds its map where it has one.
proof fn lemma_filter_step(shadows: Seq<Option<ShadowMap>>, i: int)
    requires
        0 <= i < shadows.len(),
    ensures
        ({
            let wanted = |shadow: Option<ShadowMap>| shadow is Some;
            let unwrap = |shadow: Option<ShadowMap>| shadow->0;
            let before = shadows.take(i).filter(wanted).map_values(unwrap);
            shadows.take(i + 1).filter(wanted).map_values(unwrap) == if shadows[i] is Some {
                before.push(shadows[i]->0)
            } else {
                before
            }
        }),
{
    let wanted = |shadow: Option<ShadowMap>| shadow is Some;
    let unwrap = |shadow: Option<ShadowMap>| shadow->0;
    let before = shadows.take(i).filter(wanted);
    reveal(Seq::filter);
    assert(shadows.take(i + 1).drop_last() =~= shadows.take(i));
    assert(shadows.take(i + 1).last() == shadows[i]);
    if shadows[i] is Some {
        assert(shadows.take(i + 1).filter(wanted) == before.push(shadows[i]));
        assert(before.push(shadows[i]).map_values(unwrap) =~= before.map_values(unwrap).push(
            shadows[i]->0,
        ));
    } else {
        assert(shadows.take(i + 1).filter(wanted) == before);
    }
}

} // verus!
