//! The owned-handle protocol observed through the instrumented native
//! registry: destroy calls are counted per slot.

use filament::Backend;
use filament::Engine;
use filament::Scene;
use filament::native::Native;

#[test]
fn engine_create_and_release_destroys_once() {
    let mut native = Native::new();
    let engine = Engine::new(&mut native, Backend::NOOP).unwrap();
    let raw = engine.raw as usize;
    assert_eq!(native.slots.rc[raw], 1);
    assert_eq!(native.slots.destroys[raw], 0);
    engine.release(&mut native);
    assert_eq!(native.slots.rc[raw], 0);
    assert_eq!(native.slots.destroys[raw], 1);
}

#[test]
fn clone_then_release_both_destroys_exactly_once() {
    let mut native = Native::new();
    let engine = Engine::new(&mut native, Backend::NOOP).unwrap();
    let scene = Scene::new(&mut native, &engine).unwrap();
    let raw = scene.raw as usize;
    let clone = scene.clone_handle(&mut native);
    assert_eq!(native.slots.rc[raw], 2);
    scene.release(&mut native);
    assert_eq!(native.slots.destroys[raw], 0);
    clone.release(&mut native);
    assert_eq!(native.slots.destroys[raw], 1);
    engine.release(&mut native);
}

#[test]
fn engine_clone_keeps_it_alive_for_dependents() {
    let mut native = Native::new();
    let engine = Engine::new(&mut native, Backend::NOOP).unwrap();
    let eng_raw = engine.raw as usize;
    let scene = Scene::new(&mut native, &engine).unwrap();
    assert_eq!(native.slots.rc[eng_raw], 2);
    engine.release(&mut native);
    assert_eq!(native.slots.rc[eng_raw], 1);
    assert_eq!(native.slots.destroys[eng_raw], 0);
    scene.release(&mut native);
    assert_eq!(native.slots.rc[eng_raw], 0);
    assert_eq!(native.slots.destroys[eng_raw], 1);
}

#[test]
fn release_after_destroy_is_noop() {
    let mut native = Native::new();
    let engine = Engine::new(&mut native, Backend::NOOP).unwrap();
    let scene = Scene::new(&mut native, &engine).unwrap();
    let twin = Scene { raw: scene.raw, engine: scene.engine };
    let raw = scene.raw as usize;
    scene.release(&mut native);
    assert_eq!(native.slots.destroys[raw], 1);
    twin.release(&mut native);
    assert_eq!(native.slots.destroys[raw], 1);
    engine.release(&mut native);
}

#[test]
fn clone_shares_identity() {
    let mut native = Native::new();
    let engine = Engine::new(&mut native, Backend::NOOP).unwrap();
    let clone = engine.clone_handle(&mut native);
    assert_eq!(clone.raw, engine.raw);
    assert_eq!(clone, engine);
    clone.release(&mut native);
    engine.release(&mut native);
}

#[test]
fn distinct_objects_compare_unequal() {
    let mut native = Native::new();
    let engine = Engine::new(&mut native, Backend::NOOP).unwrap();
    let first = Scene::new(&mut native, &engine).unwrap();
    let second = Scene::new(&mut native, &engine).unwrap();
    assert_ne!(first, second);
    let clone = first.clone_handle(&mut native);
    assert_eq!(clone, first);
}

#[test]
fn backend_query_returns_creation_backend() {
    let mut native = Native::new();
    let engine = Engine::new(&mut native, Backend::VULKAN).unwrap();
    assert_eq!(engine.backend(&native), Backend::VULKAN);
    engine.release(&mut native);
}
