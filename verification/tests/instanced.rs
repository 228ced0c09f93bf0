use dust::cache::{AttributeSet, MaterialKind, ProgramCache, Signature};
use dust::camera::{Camera, Transformation};
use dust::context::{
    Attribute, BufferId, BufferTarget, Command, Context, DrawCall, ProgramId, RenderStates,
    TextureId, Usage, Viewport,
};
use dust::deferred_instanced_mesh::PhongDeferredInstancedMesh;
use dust::error::Error;
use dust::geometry::AxisAlignedBoundingBox;
use dust::instanced_mesh::{collect_rows, InstancedMesh};
use dust::material::{ColorSource, PhongMaterial};
use dust::math::{Mat4, Scalar, Vec3, Vec4};
use dust::mesh::CPUMesh;

fn s(x: f32) -> Scalar {
    Scalar::from_bits(x.to_bits())
}

fn v4(x: f32, y: f32, z: f32, w: f32) -> Vec4 {
    Vec4::new(s(x), s(y), s(z), s(w))
}

fn translation(x: f32, y: f32, z: f32) -> Mat4 {
    Mat4::from_cols(
        v4(1.0, 0.0, 0.0, 0.0),
        v4(0.0, 1.0, 0.0, 0.0),
        v4(0.0, 0.0, 1.0, 0.0),
        v4(x, y, z, 1.0),
    )
}

fn cpu_mesh(normals: bool, uvs: bool) -> CPUMesh {
    let zeros = |n: usize| vec![Scalar::zero(); n];
    CPUMesh {
        name: "leaf".to_string(),
        positions: zeros(9),
        indices: Some(vec![0, 1, 2]),
        normals: if normals { Some(zeros(9)) } else { None },
        uvs: if uvs { Some(zeros(6)) } else { None },
        aabb: AxisAlignedBoundingBox { min: Vec3::zero(), max: Vec3::zero() },
    }
}

fn camera() -> Camera {
    Camera::new(Viewport { x: 0, y: 0, width: 64, height: 32 }, BufferId { raw: 800 })
}

fn colored() -> PhongMaterial {
    PhongMaterial {
        color_source: ColorSource::Color(v4(0.0, 1.0, 0.0, 1.0)),
        diffuse_intensity: s(0.5),
        specular_intensity: s(0.5),
        specular_power: s(8.0),
        transparent: false,
    }
}

fn textured() -> PhongMaterial {
    PhongMaterial { color_source: ColorSource::Texture(TextureId { raw: 321 }), ..colored() }
}

fn count(ctx: &Context, wanted: fn(&Command) -> bool) -> usize {
    ctx.commands().iter().filter(|c| wanted(c)).count()
}

fn is_create_program(c: &Command) -> bool {
    matches!(c, Command::CreateProgram { .. })
}

fn is_delete_program(c: &Command) -> bool {
    matches!(c, Command::DeleteProgram { .. })
}

fn is_draw(c: &Command) -> bool {
    matches!(c, Command::Draw { .. })
}

fn key(material: MaterialKind, uvs: bool) -> Signature {
    Signature { material, attributes: AttributeSet { normals: true, uvs }, instanced: true }
}

#[test]
fn the_rows_of_the_transformations_are_collected_instance_after_instance() {
    let transformations = [translation(1.0, 2.0, 3.0), translation(4.0, 5.0, 6.0)];
    assert_eq!(
        collect_rows(&transformations, 0),
        vec![v4(1.0, 0.0, 0.0, 1.0), v4(1.0, 0.0, 0.0, 4.0)]
    );
    assert_eq!(
        collect_rows(&transformations, 1),
        vec![v4(0.0, 1.0, 0.0, 2.0), v4(0.0, 1.0, 0.0, 5.0)]
    );
    assert_eq!(
        collect_rows(&transformations, 2),
        vec![v4(0.0, 0.0, 1.0, 3.0), v4(0.0, 0.0, 1.0, 6.0)]
    );
    assert_eq!(collect_rows(&transformations, 3), vec![v4(0.0, 0.0, 0.0, 1.0); 2]);
    assert_eq!(collect_rows(&[], 0), Vec::<Vec4>::new());
    assert_eq!(translation(7.0, 8.0, 9.0).row_at(1), v4(0.0, 1.0, 0.0, 8.0));
}

#[test]
fn an_instanced_mesh_uploads_one_row_buffer_for_each_of_three_rows() {
    let mut ctx = Context::new();
    let transformations = [translation(1.0, 2.0, 3.0), translation(4.0, 5.0, 6.0)];
    let mesh = InstancedMesh::new(&mut ctx, &transformations, &cpu_mesh(true, false)).unwrap();
    assert_eq!(mesh.instance_count(), 2);
    assert_eq!(ctx.next_handle(), 7);
    let tail = &ctx.commands()[ctx.commands().len() - 12..];
    assert_eq!(
        &tail[..3],
        &[
            Command::CreateBuffer { buffer: BufferId { raw: 4 } },
            Command::CreateBuffer { buffer: BufferId { raw: 5 } },
            Command::CreateBuffer { buffer: BufferId { raw: 6 } },
        ]
    );
    let row = |values: [f32; 8]| values.iter().map(|x| x.to_bits()).collect::<Vec<u32>>();
    assert_eq!(
        tail[4],
        Command::BufferData {
            target: BufferTarget::Array,
            usage: Usage::Static,
            data: row([1.0, 0.0, 0.0, 1.0, 1.0, 0.0, 0.0, 4.0]),
        }
    );
    assert_eq!(
        tail[7],
        Command::BufferData {
            target: BufferTarget::Array,
            usage: Usage::Static,
            data: row([0.0, 1.0, 0.0, 2.0, 0.0, 1.0, 0.0, 5.0]),
        }
    );
    assert_eq!(
        tail[10],
        Command::BufferData {
            target: BufferTarget::Array,
            usage: Usage::Static,
            data: row([0.0, 0.0, 1.0, 3.0, 0.0, 0.0, 1.0, 6.0]),
        }
    );
    assert_eq!(tail[9], Command::BindBuffer { target: BufferTarget::Array, buffer: BufferId { raw: 6 } });
}

#[test]
fn placing_the_instances_anew_uploads_dynamic_data() {
    let mut ctx = Context::new();
    let mut mesh =
        InstancedMesh::new(&mut ctx, &[translation(0.0, 0.0, 0.0)], &cpu_mesh(true, false)).unwrap();
    let start = ctx.commands().len();
    mesh.update_transformations(&mut ctx, &[translation(1.0, 1.0, 1.0); 3]);
    assert_eq!(mesh.instance_count(), 3);
    let recorded = &ctx.commands()[start..];
    assert_eq!(recorded.len(), 9);
    for i in [1, 4, 7] {
        match &recorded[i] {
            Command::BufferData { usage, data, .. } => {
                assert_eq!(*usage, Usage::Dynamic);
                assert_eq!(data.len(), 12);
            }
            other => panic!("unexpected command {:?}", other),
        }
    }
    mesh.update_transformations(&mut ctx, &[]);
    assert_eq!(mesh.instance_count(), 0);
}

#[test]
fn an_instanced_mesh_is_created_whole_or_not_at_all() {
    let mut ctx = Context::starting_at(u64::MAX - 6);
    let refused = InstancedMesh::new(&mut ctx, &[], &cpu_mesh(true, true));
    assert_eq!(refused.err(), Some(Error::ResourceCreationFailed));
    assert!(ctx.commands().is_empty());
    assert!(InstancedMesh::new(&mut ctx, &[], &cpu_mesh(true, false)).is_ok());
    assert_eq!(ctx.remaining(), 0);
}

#[test]
fn an_instanced_draw_hands_over_the_rows_and_draws_all_instances_at_once() {
    let mut ctx = Context::new();
    let mesh =
        InstancedMesh::new(&mut ctx, &[translation(0.0, 0.0, 0.0); 5], &cpu_mesh(true, false))
            .unwrap();
    let program = InstancedMesh::create_program(&mut ctx, "in vec3 pos;").unwrap();
    let start = ctx.commands().len();
    let done = mesh.render(
        &mut ctx,
        &program,
        RenderStates::opaque(),
        camera().viewport(),
        &Transformation::identity(),
        &camera(),
    );
    assert_eq!(done, Ok(()));
    let recorded = &ctx.commands()[start..];
    assert_eq!(recorded.len(), 7);
    let rows = [(Attribute::Row1, 4), (Attribute::Row2, 5), (Attribute::Row3, 6)];
    for (i, (attribute, raw)) in rows.iter().enumerate() {
        assert_eq!(
            recorded[3 + i],
            Command::UseAttribute {
                program: program.id(),
                attribute: *attribute,
                buffer: BufferId { raw: *raw },
                components: 4,
                per_instance: true,
            }
        );
    }
    assert_eq!(
        recorded[6],
        Command::Draw {
            program: program.id(),
            states: RenderStates::opaque(),
            viewport: camera().viewport(),
            call: DrawCall::Elements { indices: BufferId { raw: 3 }, count: 3, instances: 5 },
        }
    );
    let needs_uvs = InstancedMesh::create_program(&mut ctx, "in vec3 pos;in vec2 uvs;").unwrap();
    let before = ctx.commands().len();
    assert_eq!(
        mesh.render(
            &mut ctx,
            &needs_uvs,
            RenderStates::opaque(),
            camera().viewport(),
            &Transformation::identity(),
            &camera(),
        ),
        Err(Error::MissingAttribute { name: "uv_coordinates".to_string() })
    );
    assert_eq!(ctx.commands().len(), before);
    mesh.delete(&mut ctx);
    assert_eq!(ctx.commands().len(), before + 6);
}

#[test]
fn a_phong_mesh_needs_normals() {
    let mut ctx = Context::new();
    let refused = PhongDeferredInstancedMesh::new(&mut ctx, &[], &cpu_mesh(false, true), &colored());
    assert_eq!(refused.err(), Some(Error::MissingAttribute { name: "normal".to_string() }));
    assert!(ctx.commands().is_empty());
    let mesh =
        PhongDeferredInstancedMesh::new(&mut ctx, &[], &cpu_mesh(true, true), &colored()).unwrap();
    assert_eq!(mesh.name, "leaf");
    assert_eq!(mesh.material, colored());
    assert_eq!(mesh.signature(), key(MaterialKind::Color, true));
    let mut full = Context::starting_at(u64::MAX - 5);
    assert_eq!(
        PhongDeferredInstancedMesh::new(&mut full, &[], &cpu_mesh(true, false), &colored()).err(),
        Some(Error::ResourceCreationFailed)
    );
}

#[test]
fn phong_meshes_share_one_program_which_goes_with_the_last_of_them() {
    let mut ctx = Context::new();
    let mut cache = ProgramCache::new();
    let transformations = [translation(0.0, 0.0, 0.0); 2];
    let mut first =
        PhongDeferredInstancedMesh::new(&mut ctx, &transformations, &cpu_mesh(true, false), &colored())
            .unwrap();
    let mut second =
        PhongDeferredInstancedMesh::new(&mut ctx, &transformations, &cpu_mesh(true, false), &colored())
            .unwrap();
    assert_eq!(count(&ctx, is_create_program), 0);
    let identity = Transformation::identity();
    let states = RenderStates::opaque();
    let viewport = camera().viewport();
    for _ in 0..3 {
        assert_eq!(
            first.render_geometry(&mut ctx, &mut cache, states, viewport, &identity, &camera()),
            Ok(())
        );
        assert_eq!(
            second.render_depth(&mut ctx, &mut cache, states, viewport, &identity, &camera()),
            Ok(())
        );
    }
    assert_eq!(count(&ctx, is_create_program), 1);
    assert_eq!(count(&ctx, is_draw), 6);
    assert_eq!(cache.users(key(MaterialKind::Color, false)), 2);
    first.delete(&mut ctx, &mut cache);
    assert_eq!(count(&ctx, is_delete_program), 0);
    assert_eq!(cache.users(key(MaterialKind::Color, false)), 1);
    second.delete(&mut ctx, &mut cache);
    assert_eq!(count(&ctx, is_delete_program), 1);
    assert!(!cache.contains(key(MaterialKind::Color, false)));
    let mut third =
        PhongDeferredInstancedMesh::new(&mut ctx, &transformations, &cpu_mesh(true, false), &colored())
            .unwrap();
    third.render_geometry(&mut ctx, &mut cache, states, viewport, &identity, &camera()).unwrap();
    assert_eq!(count(&ctx, is_create_program), 2);
}

#[test]
fn a_phong_mesh_draws_with_the_program_of_its_material() {
    let mut ctx = Context::new();
    let mut cache = ProgramCache::new();
    let mut mesh = PhongDeferredInstancedMesh::new(
        &mut ctx,
        &[translation(0.0, 0.0, 0.0); 4],
        &cpu_mesh(true, true),
        &colored(),
    )
    .unwrap();
    let colored_program = ProgramId { raw: ctx.next_handle() };
    let states = RenderStates::opaque();
    let viewport = camera().viewport();
    let identity = Transformation::identity();
    mesh.render_geometry(&mut ctx, &mut cache, states, viewport, &identity, &camera()).unwrap();
    assert_eq!(
        ctx.commands().last(),
        Some(&Command::Draw {
            program: colored_program,
            states,
            viewport,
            call: DrawCall::Elements { indices: BufferId { raw: 3 }, count: 3, instances: 4 },
        })
    );
    mesh.material = textured();
    let textured_program = ProgramId { raw: ctx.next_handle() };
    let start = ctx.commands().len();
    mesh.render_geometry(&mut ctx, &mut cache, states, viewport, &identity, &camera()).unwrap();
    assert_eq!(ctx.commands()[start], Command::DeleteProgram { program: colored_program });
    assert!(matches!(ctx.commands()[start + 1], Command::CreateProgram { .. }));
    assert!(!cache.contains(key(MaterialKind::Color, true)));
    assert_eq!(cache.users(key(MaterialKind::Texture, true)), 1);
    match ctx.commands().last() {
        Some(Command::Draw { program, .. }) => assert_eq!(*program, textured_program),
        other => panic!("unexpected command {:?}", other),
    }
    mesh.render_geometry(&mut ctx, &mut cache, states, viewport, &identity, &camera()).unwrap();
    assert_eq!(count(&ctx, is_create_program), 2);
    mesh.delete(&mut ctx, &mut cache);
    assert_eq!(count(&ctx, is_delete_program), 2);
}

#[test]
fn a_textured_phong_mesh_without_uvs_records_nothing() {
    let mut ctx = Context::new();
    let mut cache = ProgramCache::new();
    let mut mesh =
        PhongDeferredInstancedMesh::new(&mut ctx, &[], &cpu_mesh(true, false), &textured()).unwrap();
    let start = ctx.commands().len();
    let done = mesh.render_geometry(
        &mut ctx,
        &mut cache,
        RenderStates::opaque(),
        camera().viewport(),
        &Transformation::identity(),
        &camera(),
    );
    assert_eq!(done, Err(Error::MissingAttribute { name: "uv_coordinates".to_string() }));
    assert_eq!(ctx.commands().len(), start);
    assert!(!cache.contains(key(MaterialKind::Texture, false)));
}

#[test]
fn a_phong_mesh_that_cannot_get_its_program_reports_it() {
    let mut ctx = Context::starting_at(u64::MAX - 6);
    let mut cache = ProgramCache::new();
    let mut mesh =
        PhongDeferredInstancedMesh::new(&mut ctx, &[], &cpu_mesh(true, false), &colored()).unwrap();
    assert_eq!(ctx.remaining(), 0);
    let start = ctx.commands().len();
    assert_eq!(mesh.prepare_program(&mut ctx, &mut cache), Err(Error::ResourceCreationFailed));
    let done = mesh.render_geometry(
        &mut ctx,
        &mut cache,
        RenderStates::opaque(),
        camera().viewport(),
        &Transformation::identity(),
        &camera(),
    );
    assert_eq!(done, Err(Error::ResourceCreationFailed));
    assert_eq!(ctx.commands().len(), start);
}

#[test]
fn placing_the_instances_of_a_phong_mesh_anew_changes_the_draw() {
    let mut ctx = Context::new();
    let mut cache = ProgramCache::new();
    let mut mesh = PhongDeferredInstancedMesh::new(
        &mut ctx,
        &[translation(0.0, 0.0, 0.0)],
        &cpu_mesh(true, false),
        &colored(),
    )
    .unwrap();
    mesh.update_transformations(&mut ctx, &[translation(1.0, 0.0, 0.0); 7]);
    mesh.render_geometry(
        &mut ctx,
        &mut cache,
        RenderStates::opaque(),
        camera().viewport(),
        &Transformation::identity(),
        &camera(),
    )
    .unwrap();
    match ctx.commands().last() {
        Some(Command::Draw { call: DrawCall::Elements { instances, .. }, .. }) => {
            assert_eq!(*instances, 7)
        }
        other => panic!("unexpected command {:?}", other),
    }
}
