//! Scenes and the entity registry.

use filament::Backend;
use filament::Engine;
use filament::Entity;
use filament::Scene;
use filament::entity_manager::EntityManager;
use filament::native::Native;

#[test]
fn scene_entity_count_round_trip() {
    let mut native = Native::new();
    let engine = Engine::new(&mut native, Backend::NOOP).unwrap();
    let scene = Scene::new(&mut native, &engine).unwrap();
    let entity = EntityManager::get().create(&mut native);
    let before = scene.renderable_count(&native) + scene.light_count(&native);
    scene.push(&mut native, entity);
    assert_eq!(scene.renderable_count(&native) + scene.light_count(&native), before + 1);
    assert!(scene.contains(&native, entity));
    scene.remove(&mut native, entity);
    assert_eq!(scene.renderable_count(&native) + scene.light_count(&native), before);
    assert!(!scene.contains(&native, entity));
}

#[test]
fn scene_starts_empty() {
    let mut native = Native::new();
    let engine = Engine::new(&mut native, Backend::NOOP).unwrap();
    let scene = Scene::new(&mut native, &engine).unwrap();
    assert!(scene.is_empty(&native));
    assert_eq!(scene.len(&native), 0);
    assert_eq!(scene.light_count(&native), 0);
}

#[test]
fn push_is_idempotent_per_entity() {
    let mut native = Native::new();
    let engine = Engine::new(&mut native, Backend::NOOP).unwrap();
    let scene = Scene::new(&mut native, &engine).unwrap();
    let entity = EntityManager::get().create(&mut native);
    scene.push(&mut native, entity);
    scene.push(&mut native, entity);
    assert_eq!(scene.len(&native), 1);
}

#[test]
fn extend_adds_each_entity() {
    let mut native = Native::new();
    let engine = Engine::new(&mut native, Backend::NOOP).unwrap();
    let scene = Scene::new(&mut native, &engine).unwrap();
    let es = EntityManager::get().create_vec(&mut native, 3);
    scene.extend(&mut native, es.clone());
    assert_eq!(scene.len(&native), 3);
    for e in &es {
        assert!(scene.contains(&native, *e));
    }
}

#[test]
fn extend_from_slice_adds_each_entity() {
    let mut native = Native::new();
    let engine = Engine::new(&mut native, Backend::NOOP).unwrap();
    let scene = Scene::new(&mut native, &engine).unwrap();
    let es = EntityManager::get().create_vec(&mut native, 4);
    scene.extend_from_slice(&mut native, &es);
    assert_eq!(scene.len(&native), 4);
}

#[test]
fn two_scenes_count_independently() {
    let mut native = Native::new();
    let engine = Engine::new(&mut native, Backend::NOOP).unwrap();
    let first = Scene::new(&mut native, &engine).unwrap();
    let second = Scene::new(&mut native, &engine).unwrap();
    let entity = EntityManager::get().create(&mut native);
    first.push(&mut native, entity);
    assert_eq!(first.len(&native), 1);
    assert_eq!(second.len(&native), 0);
}

#[test]
fn entities_get_dense_identifiers() {
    let mut native = Native::new();
    let manager = EntityManager::get();
    let a = manager.create(&mut native);
    let b = manager.create(&mut native);
    assert_eq!(a.id, 1);
    assert_eq!(b.id, 2);
    let more = manager.create_vec(&mut native, 3);
    assert_eq!(more[0].id, 3);
    assert_eq!(more[2].id, 5);
}

#[test]
fn destroyed_entities_are_no_longer_alive() {
    let mut native = Native::new();
    let manager = EntityManager::get();
    let a = manager.create(&mut native);
    let b = manager.create(&mut native);
    manager.destroy(&mut native, &[a]);
    assert!(!native.entities.alive[(a.id - 1) as usize]);
    assert!(native.entities.alive[(b.id - 1) as usize]);
}

#[test]
fn fill_slice_overwrites_with_fresh_entities() {
    let mut native = Native::new();
    let manager = EntityManager::get();
    let _burn = manager.create(&mut native);
    let mut slots: Vec<Entity> = vec![Entity::default(); 3];
    manager.fill_slice(&mut native, &mut slots);
    assert_eq!(slots[0].id, 2);
    assert_eq!(slots[1].id, 3);
    assert_eq!(slots[2].id, 4);
}

#[test]
fn default_entity_is_null() {
    assert_eq!(Entity::default().id, 0);
}
