//! Views, renderers, viewports and swapchains.

use filament::AmbientOcclusion;
use filament::AntiAliasing;
use filament::Backend;
use filament::Camera;
use filament::ClearOptions;
use filament::CopyFrameFlags;
use filament::DisplayInfo;
use filament::Dithering;
use filament::Engine;
use filament::FovDirection;
use filament::FrameRateOptions;
use filament::Projection;
use filament::RenderView;
use filament::Renderer;
use filament::Scene;
use filament::SwapChain;
use filament::SwapChainFlags;
use filament::ToneMapping;
use filament::Viewport;
use filament::native::Native;
use filament::swapchain::SWAP_CHAIN_CONFIG_TRANSPARENT;

#[test]
fn viewport_edges() {
    let vp = Viewport::new(10, 20, 300, 400);
    assert_eq!(vp.left, 10);
    assert_eq!(vp.bottom, 20);
    assert_eq!(vp.right(), 310);
    assert_eq!(vp.top(), 420);
    let negative = Viewport::new(-5, -7, 10, 14);
    assert_eq!(negative.right(), 5);
    assert_eq!(negative.top(), 7);
}

#[test]
fn view_settings_round_trip() {
    let mut native = Native::new();
    let engine = Engine::new(&mut native, Backend::NOOP).unwrap();
    let view = RenderView::new(&mut native, &engine).unwrap();

    assert_eq!(view.ambient_occlusion(&native), AmbientOcclusion::NONE);
    view.set_ambient_occlusion(&mut native, AmbientOcclusion::SSAO);
    assert_eq!(view.ambient_occlusion(&native), AmbientOcclusion::SSAO);

    view.set_antialiasing(&mut native, AntiAliasing::FXAA);
    assert_eq!(view.antialiasing(&native), AntiAliasing::FXAA);

    view.set_dithering(&mut native, Dithering::TEMPORAL);
    assert_eq!(view.dithering(&native), Dithering::TEMPORAL);

    view.set_tone_mapping(&mut native, ToneMapping::AC);
    assert_eq!(view.tone_mapping(&native), ToneMapping::AC);
}

#[test]
fn view_name_round_trip() {
    let mut native = Native::new();
    let engine = Engine::new(&mut native, Backend::NOOP).unwrap();
    let view = RenderView::new(&mut native, &engine).unwrap();
    assert_eq!(view.name(&native), "");
    view.set_name(&mut native, String::from("main view"));
    assert_eq!(view.name(&native), "main view");
    view.set_name(&mut native, String::from("shadow pass"));
    assert_eq!(view.name(&native), "shadow pass");
}

#[test]
fn view_takes_scene_camera_viewport() {
    let mut native = Native::new();
    let engine = Engine::new(&mut native, Backend::NOOP).unwrap();
    let scene = Scene::new(&mut native, &engine).unwrap();
    let camera = Camera::new_orphan(&mut native, &engine).unwrap();
    let view = RenderView::new(&mut native, &engine).unwrap();
    view.set_scene(&mut native, &scene);
    view.set_camera(&mut native, &camera);
    view.set_viewport(&mut native, Viewport::new(0, 0, 640, 480));
}

#[test]
fn frame_cycle_proceeds() {
    let mut native = Native::new();
    let engine = Engine::new(&mut native, Backend::NOOP).unwrap();
    let renderer = Renderer::new(&mut native, &engine).unwrap();
    let swapchain = SwapChain::new_headless(&mut native, &engine, 640, 480, SwapChainFlags::empty()).unwrap();
    let scene = Scene::new(&mut native, &engine).unwrap();
    let camera = Camera::new_orphan(&mut native, &engine).unwrap();
    let view = RenderView::new(&mut native, &engine).unwrap();
    view.set_scene(&mut native, &scene);
    view.set_camera(&mut native, &camera);

    assert!(renderer.begin_frame(&mut native, &swapchain, 0));
    renderer.render(&mut native, &view);
    renderer.end_frame(&mut native);
    renderer.set_clear_options(&mut native, ClearOptions::default());
    renderer.copy_frame(
        &mut native,
        &swapchain,
        Viewport::new(0, 0, 640, 480),
        Viewport::new(0, 0, 640, 480),
        CopyFrameFlags::empty(),
    );
    engine.execute(&mut native);
    engine.flush_and_wait(&mut native);
}

#[test]
fn swapchain_keeps_window_handle_and_flags() {
    let mut native = Native::new();
    let engine = Engine::new(&mut native, Backend::NOOP).unwrap();
    let flags = SwapChainFlags::from_bits(SWAP_CHAIN_CONFIG_TRANSPARENT);
    let swapchain = SwapChain::new(&mut native, &engine, 0xABCD, flags).unwrap();
    assert_eq!(swapchain.raw_handle(&native), 0xABCD);
    let headless = SwapChain::new_headless(&mut native, &engine, 32, 32, SwapChainFlags::empty()).unwrap();
    assert_eq!(headless.raw_handle(&native), 0);
}

#[test]
fn renderer_records_display_and_pacing_options() {
    let mut native = Native::new();
    let engine = Engine::new(&mut native, Backend::NOOP).unwrap();
    let renderer = Renderer::new(&mut native, &engine).unwrap();
    renderer.set_display_info(
        &mut native,
        DisplayInfo {
            refresh_rate: 60.0f64.to_bits(),
            presentation_deadline_nanos: 1_000_000,
            vsync_offset_nanos: 0,
        },
    );
    renderer.set_frame_rate_options(
        &mut native,
        FrameRateOptions {
            head_room_ratio: 0.25f32.to_bits(),
            scale_rate: 0.125f32.to_bits(),
            history: 3,
            interval: 1,
        },
    );
    renderer.reset_user_time(&mut native);
}

#[test]
fn camera_records_projection_parameters() {
    let mut native = Native::new();
    let engine = Engine::new(&mut native, Backend::NOOP).unwrap();
    let camera = Camera::new_orphan(&mut native, &engine).unwrap();
    camera.set_projection(
        &mut native,
        Projection::ORTHOGRAPHIC,
        (-1.0f64).to_bits(),
        1.0f64.to_bits(),
        (-1.0f64).to_bits(),
        1.0f64.to_bits(),
        0.1f64.to_bits(),
        100.0f64.to_bits(),
    );
    camera.set_projection_fov(
        &mut native,
        45.0f64.to_bits(),
        (16.0f64 / 9.0).to_bits(),
        0.1f64.to_bits(),
        100.0f64.to_bits(),
        FovDirection::VERTICAL,
    );
}

#[test]
fn default_clear_options_clear_to_opaque_blue() {
    let options = ClearOptions::default();
    assert!(options.clear);
    assert!(options.discard);
    assert_eq!(options.clear_color, [0, 0, 1.0f32.to_bits(), 1.0f32.to_bits()]);
}
