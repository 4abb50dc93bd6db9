//! Textures, samplers and pixel uploads.

use filament::Backend;
use filament::Engine;
use filament::InternalFormat;
use filament::PixelDataFormat;
use filament::PixelDataType;
use filament::SamplerType;
use filament::Texture;
use filament::TextureSampler;
use filament::TextureSamplerBuilder;
use filament::buffers::ReleaseCallback;
use filament::native::HeapBlock;
use filament::native::Native;
use filament::texture::make_pixel_buffer_descriptor;
use filament::texture::SamplerCompareFunc;
use filament::texture::SamplerCompareMode;
use filament::texture::SamplerMagFilter;
use filament::texture::SamplerMinFilter;
use filament::texture::SamplerWrapMode;

#[test]
fn texture_creation() {
    let mut native = Native::new();
    let engine = Engine::new(&mut native, Backend::NOOP).unwrap();
    let sampler = TextureSampler::default();
    let texture = Texture::builder()
        .unwrap()
        .width(123)
        .height(456)
        .format(InternalFormat::RGB8)
        .build(&mut native, &engine)
        .unwrap();

    assert_eq!(texture.width(&native, 0), 123);
    assert_eq!(texture.height(&native, 0), 456);
    assert_eq!(texture.format(&native), InternalFormat::RGB8);

    let _ = sampler;
    texture.release(&mut native);
    engine.release(&mut native);
}

#[test]
fn mip_levels_halve_dimensions_down_to_one() {
    let mut native = Native::new();
    let engine = Engine::new(&mut native, Backend::NOOP).unwrap();
    let texture = Texture::builder()
        .unwrap()
        .width(8)
        .height(5)
        .levels(4)
        .build(&mut native, &engine)
        .unwrap();
    assert_eq!(texture.width(&native, 0), 8);
    assert_eq!(texture.width(&native, 1), 4);
    assert_eq!(texture.width(&native, 3), 1);
    assert_eq!(texture.height(&native, 1), 2);
    assert_eq!(texture.height(&native, 3), 1);
    assert_eq!(texture.levels(&native), 4);
}

#[test]
fn texture_defaults_match_native_builder() {
    let mut native = Native::new();
    let engine = Engine::new(&mut native, Backend::NOOP).unwrap();
    let texture = Texture::builder()
        .unwrap()
        .build(&mut native, &engine)
        .unwrap();
    assert_eq!(texture.width(&native, 0), 1);
    assert_eq!(texture.height(&native, 0), 1);
    assert_eq!(texture.format(&native), InternalFormat::RGBA8);
    assert_eq!(texture.target(&native), SamplerType::SAMPLER_2D);
}

#[test]
fn pixel_upload_is_transferred_and_reclaimed() {
    let mut native = Native::new();
    let engine = Engine::new(&mut native, Backend::NOOP).unwrap();
    let texture = Texture::builder()
        .unwrap()
        .width(2)
        .height(2)
        .format(InternalFormat::RGBA8)
        .build(&mut native, &engine)
        .unwrap();
    texture.set(
        &mut native,
        0,
        vec![0u8; 16],
        PixelDataFormat::RGBA,
        PixelDataType::UBYTE,
    );
    assert_eq!(native.heap.pending.len(), 1);
    assert_eq!(native.heap.pending[0].size, 16);
    let block = native.heap.pending[0].buffer as usize;
    engine.flush_and_wait(&mut native);
    assert!(matches!(native.heap.blocks[block], HeapBlock::Freed));
}

#[test]
fn pixel_descriptor_records_callback_and_token() {
    let mut native = Native::new();
    let desc = make_pixel_buffer_descriptor(
        &mut native,
        vec![1u8, 2, 3, 4],
        PixelDataFormat::RGBA,
        PixelDataType::UBYTE,
    );
    assert_eq!(desc.base.buffer, 0);
    assert_eq!(desc.base.size, 4);
    assert!(matches!(desc.base.callback, Some(ReleaseCallback::DeallocateRustBuffer)));
    assert_eq!(desc.base.user, 0);
    assert_eq!(desc.format, PixelDataFormat::RGBA);
    assert_eq!(desc.ty, PixelDataType::UBYTE);
}

#[test]
fn sampler_builder_round_trips_every_field() {
    let sampler = TextureSampler::builder()
        .filter_mag(SamplerMagFilter::LINEAR)
        .filter_min(SamplerMinFilter::LINEAR_MIPMAP_LINEAR)
        .wrap_s(SamplerWrapMode::REPEAT)
        .wrap_t(SamplerWrapMode::MIRRORED_REPEAT)
        .wrap_r(SamplerWrapMode::REPEAT)
        .anisotropy_log2(3)
        .compare_mode(SamplerCompareMode::COMPARE_TO_TEXTURE)
        .compare_func(SamplerCompareFunc::GE)
        .build();
    assert_eq!(sampler.filter_mag, SamplerMagFilter::LINEAR);
    assert_eq!(sampler.filter_min, SamplerMinFilter::LINEAR_MIPMAP_LINEAR);
    assert_eq!(sampler.wrap_s, SamplerWrapMode::REPEAT);
    assert_eq!(sampler.wrap_t, SamplerWrapMode::MIRRORED_REPEAT);
    assert_eq!(sampler.wrap_r, SamplerWrapMode::REPEAT);
    assert_eq!(sampler.anisotropy_log2, 3);
    assert_eq!(sampler.compare_mode, SamplerCompareMode::COMPARE_TO_TEXTURE);
    assert_eq!(sampler.compare_func, SamplerCompareFunc::GE);
}

#[test]
fn default_sampler_is_nearest_clamped() {
    let sampler = TextureSampler::default();
    assert_eq!(sampler.filter_mag, SamplerMagFilter::NEAREST);
    assert_eq!(sampler.filter_min, SamplerMinFilter::NEAREST);
    assert_eq!(sampler.wrap_s, SamplerWrapMode::CLAMP_TO_EDGE);
    assert_eq!(sampler.wrap_t, SamplerWrapMode::CLAMP_TO_EDGE);
    assert_eq!(sampler.wrap_r, SamplerWrapMode::CLAMP_TO_EDGE);
    assert_eq!(sampler.anisotropy_log2, 0);
    assert_eq!(sampler.compare_mode, SamplerCompareMode::NONE);
    assert_eq!(sampler.compare_func, SamplerCompareFunc::LE);
    assert_eq!(sampler, TextureSamplerBuilder::new().build());
}
