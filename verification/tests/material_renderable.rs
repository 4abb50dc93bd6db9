//! Materials, material instances and renderable builders.

use filament::Backend;
use filament::Engine;
use filament::IndexBuffer;
use filament::Texture;
use filament::TextureSampler;
use filament::VertexBuffer;
use filament::entity_manager::EntityManager;
use filament::material::Material;
use filament::material::MaterialParameter;
use filament::native::Native;
use filament::renderable::PrimitiveType;
use filament::renderable::RenderableBuildError;
use filament::renderable::RenderableBuilder;

#[test]
fn material_carries_default_instance() {
    let mut native = Native::new();
    let engine = Engine::new(&mut native, Backend::NOOP).unwrap();
    let material = Material::new(&mut native, &engine, &[1u8, 2, 3]).unwrap();
    let instance = material.default_instance(&mut native);
    assert_eq!(instance.raw, material.raw + 1);
    let inst_raw = instance.raw as usize;
    assert_eq!(native.slots.rc[inst_raw], 2);
    instance.release(&mut native);
    assert_eq!(native.slots.rc[inst_raw], 1);
    assert_eq!(native.slots.destroys[inst_raw], 0);
}

#[test]
fn releasing_every_instance_handle_never_destroys_it() {
    let mut native = Native::new();
    let engine = Engine::new(&mut native, Backend::NOOP).unwrap();
    let material = Material::new(&mut native, &engine, &[0u8]).unwrap();
    let first = material.default_instance(&mut native);
    let second = material.default_instance(&mut native);
    let inst_raw = first.raw as usize;
    first.release(&mut native);
    second.release(&mut native);
    assert_eq!(native.slots.destroys[inst_raw], 0);
}

#[test]
fn instance_parameter_binding_is_recorded() {
    let mut native = Native::new();
    let engine = Engine::new(&mut native, Backend::NOOP).unwrap();
    let material = Material::new(&mut native, &engine, &[0u8]).unwrap();
    let instance = material.default_instance(&mut native);
    let texture = Texture::builder()
        .unwrap()
        .build(&mut native, &engine)
        .unwrap();
    let sampler = TextureSampler::default();
    instance.set(
        &mut native,
        String::from("albedo"),
        MaterialParameter::Texture(&texture, &sampler),
    );
    assert_eq!(native.bindings.rows.len(), 1);
    assert_eq!(native.bindings.rows[0].0, instance.raw);
    assert_eq!(native.bindings.rows[0].1, "albedo");
    assert_eq!(native.bindings.rows[0].2, texture.raw);
    assert_eq!(native.bindings.rows[0].3, sampler);
}

#[test]
fn renderable_build_populates_entity_and_releases_proxy() {
    let mut native = Native::new();
    let engine = Engine::new(&mut native, Backend::NOOP).unwrap();
    let entity = EntityManager::get().create(&mut native);
    let vb = VertexBuffer::builder()
        .vertex_count(3)
        .buffer_count(1)
        .build(&mut native, &engine)
        .unwrap();
    let ib = IndexBuffer::builder()
        .index_count(3)
        .build(&mut native, &engine)
        .unwrap();
    let material = Material::new(&mut native, &engine, &[0u8]).unwrap();
    let instance = material.default_instance(&mut native);

    let builder = RenderableBuilder::new(&mut native, 1).unwrap();
    let proxy = builder.proxy as usize;
    let builder = builder
        .material(0, &instance)
        .geometry(0, PrimitiveType::TRIANGLES, &vb, &ib)
        .culling(false)
        .receive_shadows(false)
        .cast_shadows(false);
    builder.build(&mut native, &engine, entity).unwrap();

    assert!(native.entities.renderable[(entity.id - 1) as usize]);
    assert_eq!(native.slots.rc[proxy], 0);
    assert_eq!(native.slots.destroys[proxy], 1);
}

#[test]
fn abandoned_renderable_builder_releases_its_proxy() {
    let mut native = Native::new();
    let builder = RenderableBuilder::new(&mut native, 2).unwrap();
    let proxy = builder.proxy as usize;
    builder.release(&mut native);
    assert_eq!(native.slots.rc[proxy], 0);
    assert_eq!(native.slots.destroys[proxy], 1);
}

#[test]
fn renderable_build_fails_against_null_native() {
    let mut native = Native::new();
    let engine = Engine::new(&mut native, Backend::NOOP).unwrap();
    let entity = EntityManager::get().create(&mut native);
    let builder = RenderableBuilder::new(&mut native, 1).unwrap();
    let proxy = builder.proxy as usize;
    native.fail_creation = true;
    assert!(matches!(
        builder.build(&mut native, &engine, entity),
        Err(RenderableBuildError::CreationFailed)
    ));
    assert!(!native.entities.renderable[(entity.id - 1) as usize]);
    assert_eq!(native.slots.destroys[proxy], 1);
}
