use dust::cache::{AttributeSet, MaterialKind, ProgramCache, Signature};
use dust::context::{Command, Context, ProgramId};
use dust::error::Error;
use dust::program::{build_vertex_shader, MISSING_POSITION_INPUT};
use std::cell::Cell;

const SOURCE: &str = "in vec3 pos;\nin vec3 nor;\nvoid main() {}";

fn signature(material: MaterialKind, instanced: bool) -> Signature {
    Signature { material, attributes: AttributeSet { normals: true, uvs: false }, instanced }
}

fn creations(ctx: &Context) -> usize {
    ctx.commands().iter().filter(|c| matches!(c, Command::CreateProgram { .. })).count()
}

fn deletions(ctx: &Context) -> usize {
    ctx.commands().iter().filter(|c| matches!(c, Command::DeleteProgram { .. })).count()
}

#[test]
fn many_requests_for_one_signature_compile_once_and_share_one_program() {
    let mut ctx = Context::new();
    let mut cache = ProgramCache::new();
    let key = signature(MaterialKind::Color, false);
    let asked = Cell::new(0);
    let mut handles = Vec::new();
    for _ in 0..5 {
        let handle = cache
            .get_or_compile(&mut ctx, key, || {
                asked.set(asked.get() + 1);
                SOURCE.to_string()
            })
            .unwrap();
        handles.push(handle);
    }
    assert_eq!(asked.get(), 1);
    assert_eq!(creations(&ctx), 1);
    assert_eq!(cache.users(key), 5);
    for handle in &handles {
        assert_eq!(handle.program().id(), ProgramId { raw: 1 });
        assert_eq!(handle.signature(), key);
        assert!(handle.program().use_normals());
    }
    for (i, handle) in handles.into_iter().enumerate() {
        assert!(cache.contains(key));
        assert_eq!(deletions(&ctx), 0);
        cache.release(&mut ctx, handle);
        assert_eq!(cache.users(key), 4 - i as u64);
    }
    assert!(!cache.contains(key));
    assert_eq!(deletions(&ctx), 1);
    assert_eq!(ctx.commands().last(), Some(&Command::DeleteProgram { program: ProgramId { raw: 1 } }));
    let fresh = cache
        .get_or_compile(&mut ctx, key, || {
            asked.set(asked.get() + 1);
            SOURCE.to_string()
        })
        .unwrap();
    assert_eq!(asked.get(), 2);
    assert_eq!(creations(&ctx), 2);
    assert_eq!(fresh.program().id(), ProgramId { raw: 2 });
    assert_eq!(cache.users(key), 1);
}

#[test]
fn a_rejected_shader_leaves_no_entry() {
    let mut ctx = Context::new();
    let mut cache = ProgramCache::new();
    let key = signature(MaterialKind::Custom(7), false);
    let failed = cache.get_or_compile(&mut ctx, key, || "void main() {}".to_string());
    assert_eq!(
        failed.err(),
        Some(Error::ShaderCompileFailed { message: MISSING_POSITION_INPUT.to_string() })
    );
    assert!(!cache.contains(key));
    assert_eq!(cache.users(key), 0);
    assert!(ctx.commands().is_empty());
    let served = cache.get_or_compile(&mut ctx, key, || SOURCE.to_string());
    assert!(served.is_ok());
    assert!(cache.contains(key));
}

#[test]
fn each_signature_has_a_program_of_its_own() {
    let mut ctx = Context::new();
    let mut cache = ProgramCache::new();
    let colored_static = signature(MaterialKind::Color, false);
    let textured_instanced = signature(MaterialKind::Texture, true);
    let a = cache.request(&mut ctx, colored_static, SOURCE).unwrap();
    let b = cache.request(&mut ctx, textured_instanced, SOURCE).unwrap();
    let c = cache.request(&mut ctx, signature(MaterialKind::Custom(1), false), SOURCE).unwrap();
    let d = cache.request(&mut ctx, signature(MaterialKind::Custom(2), false), SOURCE).unwrap();
    assert_ne!(a.program().id(), b.program().id());
    assert_ne!(c.program().id(), d.program().id());
    assert!(!a.program().instanced());
    assert!(b.program().instanced());
    assert_eq!(creations(&ctx), 4);
    match &ctx.commands()[1] {
        Command::CreateProgram { vertex_source, fragment_source, .. } => {
            assert_eq!(vertex_source, &build_vertex_shader(true, false, true));
            assert_eq!(fragment_source, SOURCE);
        }
        other => panic!("unexpected command {:?}", other),
    }
    cache.release(&mut ctx, a);
    assert!(!cache.contains(colored_static));
    assert!(cache.contains(textured_instanced));
    assert_eq!(cache.users(textured_instanced), 1);
    cache.release(&mut ctx, b);
    cache.release(&mut ctx, c);
    cache.release(&mut ctx, d);
    assert_eq!(deletions(&ctx), 4);
}

#[test]
fn a_request_for_a_cached_program_ignores_the_source() {
    let mut ctx = Context::new();
    let mut cache = ProgramCache::new();
    let key = signature(MaterialKind::Texture, false);
    let first = cache.request(&mut ctx, key, SOURCE).unwrap();
    let second = cache.request(&mut ctx, key, "not a shader").unwrap();
    assert_eq!(first.program().id(), second.program().id());
    assert_eq!(cache.users(key), 2);
    assert_eq!(ctx.commands().len(), 1);
}

#[test]
fn a_handle_of_another_cache_changes_nothing() {
    let mut ctx = Context::new();
    let mut cache = ProgramCache::new();
    let mut other = ProgramCache::new();
    let stray = other.request(&mut ctx, signature(MaterialKind::Color, true), SOURCE).unwrap();
    let kept = cache.request(&mut ctx, signature(MaterialKind::Color, false), SOURCE).unwrap();
    let before = ctx.commands().len();
    cache.release(&mut ctx, stray);
    assert_eq!(ctx.commands().len(), before);
    assert_eq!(cache.users(signature(MaterialKind::Color, false)), 1);
    cache.release(&mut ctx, kept);
    assert_eq!(ctx.commands().len(), before + 1);
}

#[test]
fn a_context_without_handles_compiles_nothing() {
    let mut ctx = Context::starting_at(u64::MAX);
    let mut cache = ProgramCache::new();
    let key = signature(MaterialKind::Color, false);
    let asked = Cell::new(0);
    let failed = cache.get_or_compile(&mut ctx, key, || {
        asked.set(asked.get() + 1);
        SOURCE.to_string()
    });
    assert_eq!(failed.err(), Some(Error::ResourceCreationFailed));
    assert_eq!(asked.get(), 1);
    assert!(!cache.contains(key));
    assert!(ctx.commands().is_empty());
}
