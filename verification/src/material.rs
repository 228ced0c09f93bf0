use crate::cache::{AttributeSet, MaterialKind};
use crate::context::{
    Command, CommandView, Context, ProgramId, TextureId, Uniform, UniformValue,
};
use crate::error::Error;
use crate::math::{Scalar, Vec4};
use crate::program::{
    accepts, lemma_occurs_in_middle, occurs_in, MeshProgram, NORMAL_INPUT, POSITION_INPUT,
    UV_INPUT,
};
use vstd::prelude::*;

verus! {

/// Where the color of a surface comes from.
#[derive(Debug, Clone, Copy, PartialEq, Eq, Structural)]
pub enum ColorSource {
    Color(Vec4),
    Texture(TextureId),
}

impl ColorSource {
    pub open spec fn spec_kind(self) -> MaterialKind {
        match self {
            ColorSource::Color(_) => MaterialKind::Color,
            ColorSource::Texture(_) => MaterialKind::Texture,
        }
    }

    #[verifier::when_used_as_spec(spec_kind)]
    pub fn kind(self) -> (kind: MaterialKind)
        ensures
            kind == self.spec_kind(),
    {
        match self {
            ColorSource::Color(_) => MaterialKind::Color,
            ColorSource::Texture(_) => MaterialKind::Texture,
        }
    }
}

/// What decides how a surface looks. A material supplies the fragment
/// shader and sets the uniforms that the shader reads; the geometry it is
/// put on issues the draw call.
pub trait Material {
    spec fn spec_kind(&self) -> MaterialKind;

    spec fn spec_required_attributes(&self) -> AttributeSet;

    spec fn spec_is_transparent(&self) -> bool;

    /// The kind of material, by which its program is shared.
    fn kind(&self) -> (kind: MaterialKind)
        ensures
            kind == self.spec_kind(),
    ;

    /// The vertex inputs that the fragment shader reads besides the
    /// position.
    fn required_attributes(&self) -> (required: AttributeSet)
        ensures
            required == self.spec_required_attributes(),
    ;

    fn is_transparent(&self) -> (transparent: bool)
        ensures
            transparent == self.spec_is_transparent(),
    ;

    /// The fragment shader of the material, from which its program is
    /// compiled.
    fn fragment_shader_source(&self) -> (source: String)
    ;

    /// Sets the uniforms and textures that the shader needs. Whatever it
    /// records, it creates no object and issues no draw call.
    fn bind(&self, ctx: &mut Context, program: &MeshProgram) -> (done: Result<(), Error>)
        ensures
            final(ctx)@.extends(old(ctx)@),
            final(ctx)@.next_handle == old(ctx)@.next_handle,
            final(ctx)@.draws() == old(ctx)@.draws(),
    ;
}

pub const FRAGMENT_HEAD: &'static str = "
layout (location = 0) out vec4 out_color;
layout (location = 1) out vec4 out_position;
layout (location = 2) out vec4 out_normal;

uniform float diffuse_intensity;
uniform float specular_intensity;
uniform float specular_power;

";

pub const COLORED_BODY: &'static str = "

uniform vec4 surfaceColor;

void main()
{
    out_color = vec4(surfaceColor.rgb, diffuse_intensity);
    out_position = vec4(pos, specular_intensity);
    out_normal = vec4(normalize(nor), specular_power);
}
";

pub const TEXTURED_BODY: &'static str = "

uniform sampler2D tex;

void main()
{
    out_color = vec4(texture(tex, vec2(uvs.x, 1.0 - uvs.y)).rgb, diffuse_intensity);
    out_position = vec4(pos, specular_intensity);
    out_normal = vec4(normalize(nor), specular_power);
}
";

/// The fragment shader that writes a surface of the given kind into the
/// attachments of the geometry pass. It reads the position and the normal,
/// and for a textured surface the uv coordinates.
pub open spec fn deferred_fragment_source(textured: bool) -> Seq<char> {
    FRAGMENT_HEAD@ + POSITION_INPUT@ + NORMAL_INPUT@ + if textured {
        UV_INPUT@ + TEXTURED_BODY@
    } else {
        COLORED_BODY@
    }
}

/// The deferred fragment shaders are accepted, and they read the normal.
pub proof fn lemma_deferred_source_inputs(textured: bool)
    ensures
        accepts(deferred_fragment_source(textured)),
        occurs_in(NORMAL_INPUT@, deferred_fragment_source(textured)),
        textured ==> occurs_in(UV_INPUT@, deferred_fragment_source(textured)),
{
    let source = deferred_fragment_source(textured);
    let body = if textured {
        UV_INPUT@ + TEXTURED_BODY@
    } else {
        COLORED_BODY@
    };
    lemma_occurs_in_middle(FRAGMENT_HEAD@, POSITION_INPUT@, NORMAL_INPUT@ + body);
    assert(source =~= FRAGMENT_HEAD@ + POSITION_INPUT@ + (NORMAL_INPUT@ + body));
    lemma_occurs_in_middle(FRAGMENT_HEAD@ + POSITION_INPUT@, NORMAL_INPUT@, body);
    assert(source =~= FRAGMENT_HEAD@ + POSITION_INPUT@ + NORMAL_INPUT@ + body);
    if textured {
        lemma_occurs_in_middle(
            FRAGMENT_HEAD@ + POSITION_INPUT@ + NORMAL_INPUT@,
            UV_INPUT@,
            TEXTURED_BODY@,
        );
        assert(source =~= FRAGMENT_HEAD@ + POSITION_INPUT@ + NORMAL_INPUT@ + UV_INPUT@
            + TEXTURED_BODY@);
    }
}

/// A surface lit by the Phong model. A value: it holds no GPU object and
/// can be copied freely.
#[derive(Debug, Clone, Copy, PartialEq, Eq, Structural)]
pub struct PhongMaterial {
    pub color_source: ColorSource,
    pub diffuse_intensity: Scalar,
    pub specular_intensity: Scalar,
    pub specular_power: Scalar,
    pub transparent: bool,
}

impl PhongMaterial {
    /// The fragment shader of the material.
    pub open spec fn source(self) -> Seq<char> {
        deferred_fragment_source(self.color_source is Texture)
    }

    /// The commands that set the uniforms of `program` for this material.
    pub open spec fn bind_commands(self, program: ProgramId) -> Seq<CommandView> {
        seq![
            CommandView::SetUniform {
                program,
                uniform: Uniform::DiffuseIntensity,
                value: UniformValue::Scalar(self.diffuse_intensity),
            },
            CommandView::SetUniform {
                program,
                uniform: Uniform::SpecularIntensity,
                value: UniformValue::Scalar(self.specular_intensity),
            },
            CommandView::SetUniform {
                program,
                uniform: Uniform::SpecularPower,
                value: UniformValue::Scalar(self.specular_power),
            },
            match self.color_source {
                ColorSource::Color(color) => CommandView::SetUniform {
                    program,
                    uniform: Uniform::SurfaceColor,
                    value: UniformValue::Vec4(color),
                },
                ColorSource::Texture(texture) => CommandView::SetUniform {
                    program,
                    uniform: Uniform::SurfaceTexture,
                    value: UniformValue::Texture(texture),
                },
            },
        ]
    }

    /// Setting the uniforms of a material draws nothing.
    pub proof fn lemma_bind_draws_nothing(self, ctx: crate::context::ContextView, program: ProgramId)
        ensures
            ctx.record(self.bind_commands(program)).draws() == ctx.draws(),
            ctx.record(self.bind_commands(program)).extends(ctx),
    {
        let commands = self.bind_commands(program);
        crate::context::lemma_no_draw_calls(commands);
        crate::context::lemma_draw_calls_concat(ctx.commands, commands);
        assert(ctx.draws() + Seq::<CommandView>::empty() =~= ctx.draws());
        assert((ctx.commands + commands).subrange(0, ctx.commands.len() as int) =~= ctx.commands);
    }
}

impl Material for PhongMaterial {
    open spec fn spec_kind(&self) -> MaterialKind {
        self.color_source.spec_kind()
    }

    /// The normal always; the uv coordinates for a textured surface.
    open spec fn spec_required_attributes(&self) -> AttributeSet {
        AttributeSet { normals: true, uvs: self.color_source is Texture }
    }

    open spec fn spec_is_transparent(&self) -> bool {
        self.transparent
    }

    fn kind(&self) -> (kind: MaterialKind) {
        self.color_source.kind()
    }

    fn required_attributes(&self) -> (required: AttributeSet) {
        match self.color_source {
            ColorSource::Color(_) => AttributeSet { normals: true, uvs: false },
            ColorSource::Texture(_) => AttributeSet { normals: true, uvs: true },
        }
    }

    fn is_transparent(&self) -> (transparent: bool) {
        self.transparent
    }

    fn fragment_shader_source(&self) -> (source: String)
        ensures
            source@ == self.source(),
    {
        let mut source = String::from_str(FRAGMENT_HEAD);
        source.append(POSITION_INPUT);
        source.append(NORMAL_INPUT);
        match self.color_source {
            ColorSource::Color(_) => {
                source.append(COLORED_BODY);
            },
            ColorSource::Texture(_) => {
                source.append(UV_INPUT);
                source.append(TEXTURED_BODY);
            },
        }
        assert(source@ =~= deferred_fragment_source(self.color_source is Texture));
        source
    }

    fn bind(&self, ctx: &mut Context, program: &MeshProgram) -> (done: Result<(), Error>)
        ensures
            done is Ok,
            final(ctx)@ == old(ctx)@.record(self.bind_commands(program@.id)),
    {
        let id = program.id();
        ctx.record(
            Command::SetUniform {
                program: id,
                uniform: Uniform::DiffuseIntensity,
                value: UniformValue::Scalar(self.diffuse_intensity),
            },
        );
        ctx.record(
            Command::SetUniform {
                program: id,
                uniform: Uniform::SpecularIntensity,
                value: UniformValue::Scalar(self.specular_intensity),
            },
        );
        ctx.record(
            Command::SetUniform {
                program: id,
                uniform: Uniform::SpecularPower,
                value: UniformValue::Scalar(self.specular_power),
            },
        );
        match self.color_source {
            ColorSource::Color(color) => {
                ctx.record(
                    Command::SetUniform {
                        program: id,
                        uniform: Uniform::SurfaceColor,
                        value: UniformValue::Vec4(color),
                    },
                );
            },
            ColorSource::Texture(texture) => {
                ctx.record(
                    Command::SetUniform {
                        program: id,
                        uniform: Uniform::SurfaceTexture,
                        value: UniformValue::Texture(texture),
                    },
                );
            },
        }
        proof {
            assert(ctx@.commands =~= old(ctx)@.commands + self.bind_commands(id));
            self.lemma_bind_draws_nothing(old(ctx)@, id);
        }
        Ok(())
    }
}

} // verus!
