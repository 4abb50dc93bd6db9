//! Against a native layer whose factories always return null, every
//! wrapped construction call reports `CreationFailed` and creates nothing,
//! so no destroy call is ever scheduled.

use filament::Backend;
use filament::Camera;
use filament::Engine;
use filament::EngineError;
use filament::RenderView;
use filament::Renderer;
use filament::Scene;
use filament::SwapChain;
use filament::SwapChainFlags;
use filament::IndexBuffer;
use filament::VertexBuffer;
use filament::Texture;
use filament::entity_manager::EntityManager;
use filament::material::Material;
use filament::native::Native;
use filament::renderable::RenderableBuilder;

#[test]
fn null_engine_creation_fails() {
    let mut native = Native::new();
    native.fail_creation = true;
    let before = native.slots.rc.len();
    assert!(matches!(
        Engine::new(&mut native, Backend::NOOP),
        Err(EngineError::CreationFailed)
    ));
    assert_eq!(native.slots.rc.len(), before);
}

#[test]
fn null_factories_fail_and_create_nothing() {
    let mut native = Native::new();
    let engine = Engine::new(&mut native, Backend::NOOP).unwrap();
    let entity = EntityManager::get().create(&mut native);
    native.fail_creation = true;
    let before = native.slots.rc.len();

    assert!(matches!(Scene::new(&mut native, &engine), Err(EngineError::CreationFailed)));
    assert!(matches!(RenderView::new(&mut native, &engine), Err(EngineError::CreationFailed)));
    assert!(matches!(Renderer::new(&mut native, &engine), Err(EngineError::CreationFailed)));
    assert!(matches!(
        Camera::new(&mut native, &engine, entity),
        Err(EngineError::CreationFailed)
    ));
    assert!(matches!(Camera::new_orphan(&mut native, &engine), Err(EngineError::CreationFailed)));
    assert!(matches!(
        SwapChain::new(&mut native, &engine, 0x1000, SwapChainFlags::empty()),
        Err(EngineError::CreationFailed)
    ));
    assert!(matches!(
        SwapChain::new_headless(&mut native, &engine, 64, 64, SwapChainFlags::empty()),
        Err(EngineError::CreationFailed)
    ));
    assert!(matches!(
        Material::new(&mut native, &engine, &[0u8, 1, 2]),
        Err(EngineError::CreationFailed)
    ));
    assert!(matches!(
        RenderableBuilder::new(&mut native, 1),
        Err(EngineError::CreationFailed)
    ));
    assert!(matches!(
        engine.transform_manager(&native),
        Err(EngineError::CreationFailed)
    ));

    assert_eq!(native.slots.rc.len(), before);
}

#[test]
fn null_builder_finalization_fails() {
    let mut native = Native::new();
    let engine = Engine::new(&mut native, Backend::NOOP).unwrap();
    native.fail_creation = true;
    let before = native.slots.rc.len();

    let vb = VertexBuffer::builder().vertex_count(3).buffer_count(1);
    assert!(matches!(vb.build(&mut native, &engine), Err(EngineError::CreationFailed)));

    let ib = IndexBuffer::builder().index_count(3);
    assert!(matches!(ib.build(&mut native, &engine), Err(EngineError::CreationFailed)));

    let tb = Texture::builder().unwrap().width(2).height(2);
    assert!(matches!(tb.build(&mut native, &engine), Err(EngineError::CreationFailed)));

    assert_eq!(native.slots.rc.len(), before);
}
