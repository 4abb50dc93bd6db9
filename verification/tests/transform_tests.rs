//! Transform components: matrices cross the boundary as bit patterns.

use filament::Backend;
use filament::Camera;
use filament::Engine;
use filament::entity_manager::EntityManager;
use filament::native::Native;

#[test]
fn transform_setget() {
    let identity: [f32; 16] = [1.0, 0.0, 0.0, 0.0, 0.0, 1.0, 0.0, 0.0, 0.0, 0.0, 1.0, 0.0, 0.0, 0.0, 0.0, 1.0];
    let test_transform: [f32; 16] =
        [1.0, 2.0, 3.0, 4.0, 5.0, 6.0, 7.0, 8.0, 9.0, 10.0, 11.0, 12.0, 13.0, 14.0, 15.0, 16.0];

    let mut native = Native::new();
    let engine = Engine::new(&mut native, Backend::NOOP).unwrap();
    let camera_entity = EntityManager::get().create(&mut native);
    let camera = Camera::new(&mut native, &engine, camera_entity).unwrap();
    {
        let transform_manager = engine.transform_manager(&native).unwrap();
        let camera_transform = engine
            .transform_manager(&native)
            .unwrap()
            .get(&native, camera_entity)
            .unwrap();

        assert_eq!(
            transform_manager.get_transform(&native, camera_transform).unwrap(),
            identity.map(f32::to_bits)
        );

        transform_manager.set_transform(&mut native, camera_transform, test_transform.map(f32::to_bits));

        assert_eq!(
            transform_manager.get_transform(&native, camera_transform).unwrap(),
            test_transform.map(f32::to_bits),
        );
    }
    let _ = camera;
}

#[test]
fn entity_without_component_has_no_transform() {
    let mut native = Native::new();
    let engine = Engine::new(&mut native, Backend::NOOP).unwrap();
    let entity = EntityManager::get().create(&mut native);
    let tm = engine.transform_manager(&native).unwrap();
    assert!(tm.get(&native, entity).is_none());
    assert!(tm.get_transform(&native, 0).is_none());
    assert!(tm.get_transform(&native, 7).is_none());
}

#[test]
fn camera_on_entity_with_transform_keeps_existing_component() {
    let mut native = Native::new();
    let engine = Engine::new(&mut native, Backend::NOOP).unwrap();
    let entity = EntityManager::get().create(&mut native);
    let first = Camera::new(&mut native, &engine, entity).unwrap();
    let tm = engine.transform_manager(&native).unwrap();
    let inst = tm.get(&native, entity).unwrap();
    let custom: [u32; 16] = [5; 16];
    tm.set_transform(&mut native, inst, custom);
    let second = Camera::new(&mut native, &engine, entity).unwrap();
    assert_eq!(tm.get(&native, entity).unwrap(), inst);
    assert_eq!(tm.get_transform(&native, inst).unwrap(), custom);
    let _ = (first, second);
}
