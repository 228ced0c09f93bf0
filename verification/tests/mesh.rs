use dust::buffer::flatten_words;
use dust::cache::{AttributeSet, MaterialKind, ProgramCache, Signature};
use dust::camera::{Camera, Transformation};
use dust::context::{
    Attribute, Blend, BufferId, BufferTarget, Command, Context, Cull, DrawCall, ProgramId,
    RenderStates, TextureId, Uniform, UniformValue, Usage, Viewport,
};
use dust::error::Error;
use dust::geometry::{check_attributes, AxisAlignedBoundingBox, Geometry};
use dust::light::LightSet;
use dust::material::{ColorSource, Material, PhongMaterial};
use dust::math::{Mat4, Scalar, Vec3, Vec4};
use dust::mesh::{CPUMesh, Mesh};
use dust::program::MeshProgram;

fn s(x: f32) -> Scalar {
    Scalar::from_bits(x.to_bits())
}

fn scalars(values: &[f32]) -> Vec<Scalar> {
    values.iter().map(|x| s(*x)).collect()
}

fn bits(values: &[f32]) -> Vec<u32> {
    values.iter().map(|x| x.to_bits()).collect()
}

fn aabb() -> AxisAlignedBoundingBox {
    AxisAlignedBoundingBox {
        min: Vec3::new(s(0.0), s(0.0), s(0.0)),
        max: Vec3::new(s(1.0), s(1.0), s(0.0)),
    }
}

fn triangle(normals: bool, indices: bool, uvs: bool) -> CPUMesh {
    CPUMesh {
        name: "triangle".to_string(),
        positions: scalars(&[0.0, 0.0, 0.0, 1.0, 0.0, 0.0, 0.0, 1.0, 0.0]),
        indices: if indices { Some(vec![0, 1, 2, 2, 1, 0]) } else { None },
        normals: if normals {
            Some(scalars(&[0.0, 0.0, 1.0, 0.0, 0.0, 1.0, 0.0, 0.0, 1.0]))
        } else {
            None
        },
        uvs: if uvs { Some(scalars(&[0.0, 0.0, 1.0, 0.0, 0.0, 1.0])) } else { None },
        aabb: aabb(),
    }
}

fn camera() -> Camera {
    Camera::new(Viewport { x: 0, y: 0, width: 640, height: 480 }, BufferId { raw: 1000 })
}

fn states() -> RenderStates {
    RenderStates { depth_test: true, depth_write: true, cull: Cull::Nothing, blend: Blend::Replace }
}

fn colored() -> PhongMaterial {
    PhongMaterial {
        color_source: ColorSource::Color(Vec4::new(s(1.0), s(0.5), s(0.25), s(1.0))),
        diffuse_intensity: s(0.5),
        specular_intensity: s(0.2),
        specular_power: s(6.0),
        transparent: false,
    }
}

fn textured() -> PhongMaterial {
    PhongMaterial { color_source: ColorSource::Texture(TextureId { raw: 500 }), ..colored() }
}

fn draws(ctx: &Context) -> Vec<Command> {
    ctx.commands().iter().filter(|c| matches!(c, Command::Draw { .. })).cloned().collect()
}

fn upload(target: BufferTarget, raw: u64, data: Vec<u32>) -> Vec<Command> {
    let buffer = BufferId { raw };
    vec![
        Command::CreateBuffer { buffer },
        Command::BindBuffer { target, buffer },
        Command::BufferData { target, usage: Usage::Static, data },
        Command::UnbindBuffer { target },
    ]
}

#[test]
fn a_mesh_takes_one_buffer_for_each_list_it_has() {
    let mut ctx = Context::new();
    let cpu_mesh = triangle(true, true, true);
    assert!(cpu_mesh.check_fits());
    let mesh = Mesh::new(&mut ctx, &cpu_mesh).unwrap();
    let mut expected = upload(BufferTarget::Array, 1, flatten_words(&cpu_mesh.positions));
    expected.extend(upload(
        BufferTarget::Array,
        2,
        bits(&[0.0, 0.0, 1.0, 0.0, 0.0, 1.0, 0.0, 0.0, 1.0]),
    ));
    expected.extend(upload(BufferTarget::ElementArray, 3, vec![0, 1, 2, 2, 1, 0]));
    expected.extend(upload(BufferTarget::Array, 4, bits(&[0.0, 0.0, 1.0, 0.0, 0.0, 1.0])));
    assert_eq!(ctx.commands(), &expected);
    assert_eq!(mesh.attributes(), AttributeSet { normals: true, uvs: true });
    assert_eq!(mesh.aabb(), aabb());
    assert_eq!(mesh.transformation(), Transformation::identity());
}

#[test]
fn a_mesh_of_positions_alone_takes_one_buffer() {
    let mut ctx = Context::new();
    let mesh = Mesh::new(&mut ctx, &triangle(false, false, false)).unwrap();
    assert_eq!(ctx.commands().len(), 4);
    assert_eq!(ctx.next_handle(), 2);
    assert_eq!(mesh.attributes(), AttributeSet { normals: false, uvs: false });
    mesh.delete(&mut ctx);
    assert_eq!(ctx.commands()[4], Command::DeleteBuffer { buffer: BufferId { raw: 1 } });
    assert_eq!(ctx.commands().len(), 5);
}

#[test]
fn a_mesh_is_created_whole_or_not_at_all() {
    let mut ctx = Context::starting_at(u64::MAX - 2);
    assert_eq!(ctx.remaining(), 2);
    let refused = Mesh::new(&mut ctx, &triangle(true, true, false));
    assert_eq!(refused.err(), Some(Error::ResourceCreationFailed));
    assert!(ctx.commands().is_empty());
    assert_eq!(ctx.remaining(), 2);
    let fits = Mesh::new(&mut ctx, &triangle(true, false, false));
    assert!(fits.is_ok());
    assert_eq!(ctx.remaining(), 0);
}

#[test]
fn deleting_a_mesh_gives_every_buffer_back_once() {
    let mut ctx = Context::new();
    let mesh = Mesh::new(&mut ctx, &triangle(true, false, true)).unwrap();
    let start = ctx.commands().len();
    mesh.delete(&mut ctx);
    assert_eq!(
        &ctx.commands()[start..],
        &[
            Command::DeleteBuffer { buffer: BufferId { raw: 1 } },
            Command::DeleteBuffer { buffer: BufferId { raw: 2 } },
            Command::DeleteBuffer { buffer: BufferId { raw: 3 } },
        ]
    );
}

#[test]
fn rendering_feeds_the_program_and_draws_once() {
    let mut ctx = Context::new();
    let mesh = Mesh::new(&mut ctx, &triangle(true, true, true)).unwrap();
    let program =
        MeshProgram::new(&mut ctx, "in vec3 pos;\nin vec3 nor;\nin vec2 uvs;\nvoid main() {}")
            .unwrap();
    let id = program.id();
    let start = ctx.commands().len();
    let normal = Mat4::from_cols(
        Vec4::new(s(2.0), s(0.0), s(0.0), s(0.0)),
        Vec4::new(s(0.0), s(2.0), s(0.0), s(0.0)),
        Vec4::new(s(0.0), s(0.0), s(2.0), s(0.0)),
        Vec4::new(s(0.0), s(0.0), s(0.0), s(1.0)),
    );
    let transformation = Transformation::new(Mat4::identity(), normal);
    let done = mesh.render(&mut ctx, &program, states(), camera().viewport(), &transformation, &camera());
    assert_eq!(done, Ok(()));
    let expected = vec![
        Command::SetUniform {
            program: id,
            uniform: Uniform::ModelMatrix,
            value: UniformValue::Mat4(Mat4::identity()),
        },
        Command::SetUniform {
            program: id,
            uniform: Uniform::Camera,
            value: UniformValue::Block(BufferId { raw: 1000 }),
        },
        Command::UseAttribute {
            program: id,
            attribute: Attribute::Position,
            buffer: BufferId { raw: 1 },
            components: 3,
            per_instance: false,
        },
        Command::UseAttribute {
            program: id,
            attribute: Attribute::UvCoordinates,
            buffer: BufferId { raw: 4 },
            components: 2,
            per_instance: false,
        },
        Command::SetUniform {
            program: id,
            uniform: Uniform::NormalMatrix,
            value: UniformValue::Mat4(normal),
        },
        Command::UseAttribute {
            program: id,
            attribute: Attribute::Normal,
            buffer: BufferId { raw: 2 },
            components: 3,
            per_instance: false,
        },
        Command::Draw {
            program: id,
            states: states(),
            viewport: camera().viewport(),
            call: DrawCall::Elements { indices: BufferId { raw: 3 }, count: 6, instances: 1 },
        },
    ];
    assert_eq!(&ctx.commands()[start..], &expected[..]);
}

#[test]
fn a_mesh_without_indices_draws_three_words_to_the_vertex() {
    let mut ctx = Context::new();
    let mesh = Mesh::new(&mut ctx, &triangle(true, false, false)).unwrap();
    let program = MeshProgram::new(&mut ctx, "in vec3 pos;").unwrap();
    let start = ctx.commands().len();
    mesh.render(&mut ctx, &program, states(), camera().viewport(), &Transformation::identity(), &camera())
        .unwrap();
    assert_eq!(ctx.commands().len(), start + 4);
    assert_eq!(
        ctx.commands().last(),
        Some(&Command::Draw {
            program: program.id(),
            states: states(),
            viewport: camera().viewport(),
            call: DrawCall::Arrays { vertices: 3, instances: 1 },
        })
    );
}

#[test]
fn a_program_that_reads_what_the_mesh_lacks_draws_nothing() {
    let mut ctx = Context::new();
    let bare = Mesh::new(&mut ctx, &triangle(false, false, false)).unwrap();
    let with_normals = Mesh::new(&mut ctx, &triangle(true, false, false)).unwrap();
    let needs_normals = MeshProgram::new(&mut ctx, "in vec3 pos;\nin vec3 nor;").unwrap();
    let needs_uvs = MeshProgram::new(&mut ctx, "in vec3 pos;\nin vec2 uvs;").unwrap();
    let needs_both = MeshProgram::new(&mut ctx, "in vec3 pos;\nin vec2 uvs;\nin vec3 nor;").unwrap();
    let start = ctx.commands().len();
    let identity = Transformation::identity();
    let viewport = camera().viewport();
    assert_eq!(
        bare.render(&mut ctx, &needs_normals, states(), viewport, &identity, &camera()),
        Err(Error::MissingAttribute { name: "normal".to_string() })
    );
    assert_eq!(
        bare.render(&mut ctx, &needs_uvs, states(), viewport, &identity, &camera()),
        Err(Error::MissingAttribute { name: "uv_coordinates".to_string() })
    );
    assert_eq!(
        bare.render(&mut ctx, &needs_both, states(), viewport, &identity, &camera()),
        Err(Error::MissingAttribute { name: "uv_coordinates".to_string() })
    );
    assert_eq!(
        with_normals.render(&mut ctx, &needs_both, states(), viewport, &identity, &camera()),
        Err(Error::MissingAttribute { name: "uv_coordinates".to_string() })
    );
    assert_eq!(ctx.commands().len(), start);
    assert_eq!(
        with_normals.render(&mut ctx, &needs_normals, states(), viewport, &identity, &camera()),
        Ok(())
    );
}

#[test]
fn check_attributes_names_the_first_missing_input() {
    let none = AttributeSet { normals: false, uvs: false };
    let normals = AttributeSet { normals: true, uvs: false };
    let uvs = AttributeSet { normals: false, uvs: true };
    let both = AttributeSet { normals: true, uvs: true };
    assert_eq!(check_attributes(none, none), Ok(()));
    assert_eq!(check_attributes(both, none), Ok(()));
    assert_eq!(check_attributes(both, both), Ok(()));
    assert_eq!(check_attributes(normals, normals), Ok(()));
    assert_eq!(
        check_attributes(none, normals),
        Err(Error::MissingAttribute { name: "normal".to_string() })
    );
    assert_eq!(
        check_attributes(normals, uvs),
        Err(Error::MissingAttribute { name: "uv_coordinates".to_string() })
    );
    assert_eq!(
        check_attributes(none, both),
        Err(Error::MissingAttribute { name: "uv_coordinates".to_string() })
    );
    assert_eq!(
        check_attributes(uvs, both),
        Err(Error::MissingAttribute { name: "normal".to_string() })
    );
}

#[test]
fn a_material_that_needs_what_the_mesh_lacks_fails_without_a_draw_call() {
    let mut ctx = Context::new();
    let mut cache = ProgramCache::new();
    let lights = LightSet::new();
    let bare = Mesh::new(&mut ctx, &triangle(false, true, true)).unwrap();
    let no_uvs = Mesh::new(&mut ctx, &triangle(true, true, false)).unwrap();
    let start = ctx.commands().len();
    assert_eq!(
        bare.render_with_material(&colored(), &camera(), &lights, &mut ctx, &mut cache),
        Err(Error::MissingAttribute { name: "normal".to_string() })
    );
    assert_eq!(
        no_uvs.render_with_material(&textured(), &camera(), &lights, &mut ctx, &mut cache),
        Err(Error::MissingAttribute { name: "uv_coordinates".to_string() })
    );
    assert_eq!(ctx.commands().len(), start);
    assert!(draws(&ctx).is_empty());
    let key = Signature {
        material: MaterialKind::Color,
        attributes: AttributeSet { normals: false, uvs: true },
        instanced: false,
    };
    assert!(!cache.contains(key));
}

#[test]
fn rendering_with_a_material_issues_one_draw_call_and_leaves_the_cache_as_it_was() {
    let mut ctx = Context::new();
    let mut cache = ProgramCache::new();
    let lights = LightSet::new();
    let mesh = Mesh::new(&mut ctx, &triangle(true, false, false)).unwrap();
    let start = ctx.commands().len();
    let program = ProgramId { raw: ctx.next_handle() };
    let done = mesh.render_with_material(&colored(), &camera(), &lights, &mut ctx, &mut cache);
    assert_eq!(done, Ok(()));
    let recorded = &ctx.commands()[start..];
    assert!(matches!(recorded[0], Command::CreateProgram { .. }));
    assert_eq!(recorded.last(), Some(&Command::DeleteProgram { program }));
    assert_eq!(
        draws(&ctx),
        vec![Command::Draw {
            program,
            states: RenderStates::opaque(),
            viewport: camera().viewport(),
            call: DrawCall::Arrays { vertices: 3, instances: 1 },
        }]
    );
    let key = Signature {
        material: MaterialKind::Color,
        attributes: AttributeSet { normals: true, uvs: false },
        instanced: false,
    };
    assert!(!cache.contains(key));
    assert_eq!(
        recorded[4],
        Command::SetUniform {
            program,
            uniform: Uniform::SurfaceColor,
            value: UniformValue::Vec4(Vec4::new(s(1.0), s(0.5), s(0.25), s(1.0))),
        }
    );
}

#[test]
fn a_draw_with_a_program_that_is_held_elsewhere_compiles_nothing() {
    let mut ctx = Context::new();
    let mut cache = ProgramCache::new();
    let lights = LightSet::new();
    let mut mesh = Mesh::new(&mut ctx, &triangle(true, false, true)).unwrap();
    let key = Signature {
        material: MaterialKind::Texture,
        attributes: AttributeSet { normals: true, uvs: true },
        instanced: false,
    };
    let held = cache
        .get_or_compile(&mut ctx, key, || textured().fragment_shader_source())
        .unwrap();
    let moved = Transformation::new(
        Mat4::from_cols(
            Vec4::new(s(1.0), s(0.0), s(0.0), s(0.0)),
            Vec4::new(s(0.0), s(1.0), s(0.0), s(0.0)),
            Vec4::new(s(0.0), s(0.0), s(1.0), s(0.0)),
            Vec4::new(s(3.0), s(4.0), s(5.0), s(1.0)),
        ),
        Mat4::identity(),
    );
    mesh.set_transformation(moved);
    let start = ctx.commands().len();
    for _ in 0..3 {
        mesh.render_with_material(&textured(), &camera(), &lights, &mut ctx, &mut cache).unwrap();
    }
    let recorded = &ctx.commands()[start..];
    assert!(recorded
        .iter()
        .all(|c| !matches!(c, Command::CreateProgram { .. } | Command::DeleteProgram { .. })));
    assert_eq!(draws(&ctx).len(), 3);
    assert_eq!(cache.users(key), 1);
    assert_eq!(
        recorded[4],
        Command::SetUniform {
            program: held.program().id(),
            uniform: Uniform::ModelMatrix,
            value: UniformValue::Mat4(moved.model),
        }
    );
    assert!(held.program().use_uvs());
    cache.release(&mut ctx, held);
    assert!(!cache.contains(key));
}

#[test]
fn a_phong_material_reads_normals_and_for_a_texture_uvs() {
    assert_eq!(colored().required_attributes(), AttributeSet { normals: true, uvs: false });
    assert_eq!(textured().required_attributes(), AttributeSet { normals: true, uvs: true });
    assert_eq!(colored().kind(), MaterialKind::Color);
    assert_eq!(textured().kind(), MaterialKind::Texture);
    assert!(!colored().is_transparent());
    assert!(PhongMaterial { transparent: true, ..colored() }.is_transparent());
    let source = colored().fragment_shader_source();
    assert!(source.contains("in vec3 pos;"));
    assert!(source.contains("in vec3 nor;"));
    assert!(!source.contains("in vec2 uvs;"));
    let source = textured().fragment_shader_source();
    assert!(source.contains("in vec3 pos;"));
    assert!(source.contains("in vec3 nor;"));
    assert!(source.contains("in vec2 uvs;"));
}

#[test]
fn binding_a_material_sets_its_uniforms_and_draws_nothing() {
    let mut ctx = Context::new();
    let program = MeshProgram::new(&mut ctx, "in vec3 pos;").unwrap();
    let id = program.id();
    assert_eq!(textured().bind(&mut ctx, &program), Ok(()));
    assert_eq!(
        &ctx.commands()[1..],
        &[
            Command::SetUniform {
                program: id,
                uniform: Uniform::DiffuseIntensity,
                value: UniformValue::Scalar(s(0.5)),
            },
            Command::SetUniform {
                program: id,
                uniform: Uniform::SpecularIntensity,
                value: UniformValue::Scalar(s(0.2)),
            },
            Command::SetUniform {
                program: id,
                uniform: Uniform::SpecularPower,
                value: UniformValue::Scalar(s(6.0)),
            },
            Command::SetUniform {
                program: id,
                uniform: Uniform::SurfaceTexture,
                value: UniformValue::Texture(TextureId { raw: 500 }),
            },
        ]
    );
    assert!(draws(&ctx).is_empty());
}
