use dust::cache::{AttributeSet, MaterialKind, ProgramCache};
use dust::camera::Camera;
use dust::context::{BufferId, Command, Context, TextureId, Viewport};
use dust::error::Error;
use dust::geometry::{AxisAlignedBoundingBox, Geometry};
use dust::light::LightSet;
use dust::material::{ColorSource, Material, PhongMaterial};
use dust::math::{Scalar, Vec3, Vec4};
use dust::mesh::{CPUMesh, Mesh};
use dust::program::{MeshProgram, Program};
use dust::shape::{render_opaque, Object, Shape};

fn s(x: f32) -> Scalar {
    Scalar::from_bits(x.to_bits())
}

fn aabb() -> AxisAlignedBoundingBox {
    AxisAlignedBoundingBox {
        min: Vec3::new(s(-1.0), s(-2.0), s(-3.0)),
        max: Vec3::new(s(1.0), s(2.0), s(3.0)),
    }
}

fn cpu_mesh(normals: bool, uvs: bool) -> CPUMesh {
    let zeros = |n: usize| vec![Scalar::zero(); n];
    CPUMesh {
        name: "quad".to_string(),
        positions: zeros(18),
        indices: None,
        normals: if normals { Some(zeros(18)) } else { None },
        uvs: if uvs { Some(zeros(12)) } else { None },
        aabb: aabb(),
    }
}

fn camera() -> Camera {
    Camera::new(Viewport { x: 0, y: 0, width: 8, height: 8 }, BufferId { raw: 900 })
}

fn material(transparent: bool) -> PhongMaterial {
    PhongMaterial {
        color_source: ColorSource::Color(Vec4::zero()),
        diffuse_intensity: s(1.0),
        specular_intensity: s(0.0),
        specular_power: s(1.0),
        transparent,
    }
}

fn draw_count(ctx: &Context) -> usize {
    ctx.commands().iter().filter(|c| matches!(c, Command::Draw { .. })).count()
}

/// A geometry that holds no buffers: it records one draw call with a
/// program of its own.
#[derive(Clone, Debug, PartialEq)]
struct Marker {
    supplied: AttributeSet,
    tag: u32,
}

impl Geometry for Marker {
    fn spec_attributes(&self) -> AttributeSet {
        self.supplied
    }

    fn spec_aabb(&self) -> AxisAlignedBoundingBox {
        aabb()
    }

    fn attributes(&self) -> AttributeSet {
        self.supplied
    }

    fn aabb(&self) -> AxisAlignedBoundingBox {
        aabb()
    }

    fn render_with_material<Mat: Material>(
        &self,
        material: &Mat,
        camera: &Camera,
        _lights: &LightSet,
        ctx: &mut Context,
        _cache: &mut ProgramCache,
    ) -> Result<(), Error> {
        dust::geometry::check_attributes(self.supplied, material.required_attributes())?;
        let program = Program::from_source(ctx, "v", "f")?;
        program.draw_arrays(ctx, dust::context::RenderStates::opaque(), camera.viewport(), self.tag);
        program.delete(ctx);
        Ok(())
    }
}

#[derive(Clone, Debug, PartialEq)]
struct Plain {
    transparent: bool,
}

impl Material for Plain {
    fn spec_kind(&self) -> MaterialKind {
        MaterialKind::Custom(1)
    }

    fn spec_required_attributes(&self) -> AttributeSet {
        AttributeSet { normals: false, uvs: false }
    }

    fn spec_is_transparent(&self) -> bool {
        self.transparent
    }

    fn kind(&self) -> MaterialKind {
        MaterialKind::Custom(1)
    }

    fn required_attributes(&self) -> AttributeSet {
        AttributeSet { normals: false, uvs: false }
    }

    fn is_transparent(&self) -> bool {
        self.transparent
    }

    fn fragment_shader_source(&self) -> String {
        "in vec3 pos;\nvoid main() {}".to_string()
    }

    fn bind(&self, _ctx: &mut Context, _program: &MeshProgram) -> Result<(), Error> {
        Ok(())
    }
}

struct Broken;

impl Object for Broken {
    fn spec_is_transparent(&self) -> bool {
        false
    }

    fn render(
        &self,
        _camera: &Camera,
        _lights: &LightSet,
        _ctx: &mut Context,
        _cache: &mut ProgramCache,
    ) -> Result<(), Error> {
        Err(Error::ShaderCompileFailed { message: "broken".to_string() })
    }

    fn is_transparent(&self) -> bool {
        false
    }
}

#[test]
fn a_shape_renders_its_geometry_with_its_material() {
    let lights = LightSet::new();
    let mut through_shape = Context::new();
    let mut cache = ProgramCache::new();
    let mesh = Mesh::new(&mut through_shape, &cpu_mesh(true, false)).unwrap();
    let shape = Shape::new(mesh, material(false));
    assert_eq!(shape.render(&camera(), &lights, &mut through_shape, &mut cache), Ok(()));

    let mut direct = Context::new();
    let mesh = Mesh::new(&mut direct, &cpu_mesh(true, false)).unwrap();
    assert_eq!(
        mesh.render_with_material(&material(false), &camera(), &lights, &mut direct, &mut cache),
        Ok(())
    );
    assert_eq!(through_shape.commands(), direct.commands());
    assert_eq!(draw_count(&direct), 1);
}

#[test]
fn a_shape_can_be_rendered_with_another_material() {
    let lights = LightSet::new();
    let mut ctx = Context::new();
    let mut cache = ProgramCache::new();
    let mesh = Mesh::new(&mut ctx, &cpu_mesh(true, false)).unwrap();
    let shape = Shape::new(mesh, material(false));
    let textured = PhongMaterial {
        color_source: ColorSource::Texture(TextureId { raw: 5 }),
        ..material(false)
    };
    let start = ctx.commands().len();
    assert_eq!(
        shape.render_with_material(&textured, &camera(), &lights, &mut ctx, &mut cache),
        Err(Error::MissingAttribute { name: "uv_coordinates".to_string() })
    );
    assert_eq!(ctx.commands().len(), start);
    assert_eq!(shape.render_with_material(&Plain { transparent: false }, &camera(), &lights, &mut ctx, &mut cache), Ok(()));
    assert_eq!(draw_count(&ctx), 1);
}

#[test]
fn a_shape_that_lacks_an_input_of_its_material_fails_and_draws_nothing() {
    let lights = LightSet::new();
    let mut ctx = Context::new();
    let mut cache = ProgramCache::new();
    let mesh = Mesh::new(&mut ctx, &cpu_mesh(false, true)).unwrap();
    let shape = Shape::new(mesh, material(false));
    let start = ctx.commands().len();
    assert_eq!(
        shape.render(&camera(), &lights, &mut ctx, &mut cache),
        Err(Error::MissingAttribute { name: "normal".to_string() })
    );
    assert_eq!(ctx.commands().len(), start);
    assert_eq!(draw_count(&ctx), 0);
}

#[test]
fn a_shape_is_as_transparent_as_its_material() {
    let supplied = AttributeSet { normals: true, uvs: true };
    let opaque = Shape::new(Marker { supplied, tag: 1 }, material(false));
    let glass = Shape::new(Marker { supplied, tag: 2 }, material(true));
    assert!(!opaque.is_transparent());
    assert!(glass.is_transparent());
    assert!(Shape::new(Marker { supplied, tag: 3 }, Plain { transparent: true }).is_transparent());
}

#[test]
fn a_shape_has_the_box_and_the_inputs_of_its_geometry() {
    let mut ctx = Context::new();
    let mesh = Mesh::new(&mut ctx, &cpu_mesh(true, true)).unwrap();
    let shape = Shape::new(mesh, material(false));
    assert_eq!(shape.aabb(), aabb());
    assert_eq!(shape.attributes(), AttributeSet { normals: true, uvs: true });
    assert_eq!(shape.geometry.aabb(), aabb());
}

#[test]
fn a_shape_gives_access_to_its_geometry() {
    let supplied = AttributeSet { normals: false, uvs: true };
    let mut shape = Shape::new(Marker { supplied, tag: 9 }, Plain { transparent: false });
    assert_eq!(shape.tag, 9);
    assert_eq!(&*shape, &Marker { supplied, tag: 9 });
    shape.geometry.tag = 10;
    assert_eq!(shape.tag, 10);
}

#[test]
fn a_copy_of_a_shape_has_copies_of_both_parts() {
    let supplied = AttributeSet { normals: true, uvs: false };
    let shape = Shape::new(Marker { supplied, tag: 4 }, Plain { transparent: true });
    let mut copy = shape.clone();
    assert_eq!(copy.geometry, shape.geometry);
    assert_eq!(copy.material, shape.material);
    copy.geometry.tag = 5;
    copy.material.transparent = false;
    assert_eq!(copy.geometry.tag, 5);
    assert!(!copy.material.transparent);
    assert_eq!(shape.geometry.tag, 4);
    assert!(shape.material.transparent);
}

#[test]
fn the_opaque_objects_are_drawn_in_order_and_the_transparent_ones_left_out() {
    let lights = LightSet::new();
    let mut ctx = Context::new();
    let mut cache = ProgramCache::new();
    let supplied = AttributeSet { normals: true, uvs: true };
    let first = Shape::new(Marker { supplied, tag: 3 }, material(false));
    let glass = Shape::new(Marker { supplied, tag: 6 }, material(true));
    let last = Shape::new(Marker { supplied, tag: 9 }, Plain { transparent: false });
    let objects: [&dyn Object; 3] = [&first, &glass, &last];
    assert_eq!(render_opaque(&objects, &camera(), &lights, &mut ctx, &mut cache), Ok(()));
    let drawn: Vec<u32> = ctx
        .commands()
        .iter()
        .filter_map(|c| match c {
            Command::Draw { call: dust::context::DrawCall::Arrays { vertices, .. }, .. } => {
                Some(*vertices)
            }
            _ => None,
        })
        .collect();
    assert_eq!(drawn, vec![3, 9]);
    let none: [&dyn Object; 0] = [];
    let before = ctx.commands().len();
    assert_eq!(render_opaque(&none, &camera(), &lights, &mut ctx, &mut cache), Ok(()));
    assert_eq!(ctx.commands().len(), before);
}

#[test]
fn the_first_failure_ends_the_drawing_of_the_objects() {
    let lights = LightSet::new();
    let mut ctx = Context::new();
    let mut cache = ProgramCache::new();
    let supplied = AttributeSet { normals: true, uvs: true };
    let first = Shape::new(Marker { supplied, tag: 3 }, material(false));
    let lacking = Shape::new(
        Marker { supplied: AttributeSet { normals: false, uvs: false }, tag: 6 },
        material(false),
    );
    let last = Shape::new(Marker { supplied, tag: 9 }, material(false));
    let objects: [&dyn Object; 3] = [&first, &lacking, &last];
    assert_eq!(
        render_opaque(&objects, &camera(), &lights, &mut ctx, &mut cache),
        Err(Error::MissingAttribute { name: "normal".to_string() })
    );
    assert_eq!(draw_count(&ctx), 1);
    let objects: [&dyn Object; 2] = [&Broken, &first];
    let before = draw_count(&ctx);
    assert_eq!(
        render_opaque(&objects, &camera(), &lights, &mut ctx, &mut cache),
        Err(Error::ShaderCompileFailed { message: "broken".to_string() })
    );
    assert_eq!(draw_count(&ctx), before);
}
