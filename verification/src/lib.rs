//! Safety-oriented handle layer for a real-time rendering engine.
//!
//! Engine objects (renderer, scene, view, camera, buffers, textures,
//! materials) are exposed as reference-counted owned handles whose native
//! counterpart is destroyed exactly once, when the last clone is released.
//! Heap-allocated vertex and pixel data crosses to the engine side through a
//! buffer-ownership-transfer protocol and is reclaimed by a release callback
//! exactly once.  The engine side itself is represented by an explicit
//! [`native::Native`] registry that every operation receives, so the
//! cross-boundary ownership rules are stated and checked rather than assumed.

pub mod buffers;
pub mod camera;
pub mod engine;
pub mod entity_manager;
pub mod material;
pub mod native;
pub mod renderable;
pub mod renderer;
pub mod scene;
pub mod swapchain;
pub mod texture;
pub mod transform;
pub mod view;
pub mod viewport;

pub use crate::buffers::AttributeType;
pub use crate::buffers::BufferDescriptor;
pub use crate::buffers::IndexBuffer;
pub use crate::buffers::IndexBufferBuilder;
pub use crate::buffers::IndexType;
pub use crate::buffers::VertexAttribute;
pub use crate::buffers::VertexBuffer;
pub use crate::buffers::VertexBufferBuilder;
pub use crate::camera::Camera;
pub use crate::camera::FovDirection;
pub use crate::camera::Projection;
pub use crate::engine::Engine;
pub use crate::engine::EngineError;
pub use crate::renderer::ClearOptions;
pub use crate::renderer::CopyFrameFlags;
pub use crate::renderer::DisplayInfo;
pub use crate::renderer::FrameRateOptions;
pub use crate::renderer::Renderer;
pub use crate::scene::Scene;
pub use crate::swapchain::SwapChain;
pub use crate::swapchain::SwapChainFlags;
pub use crate::texture::InternalFormat;
pub use crate::texture::PixelDataFormat;
pub use crate::texture::PixelDataType;
pub use crate::texture::SamplerType;
pub use crate::texture::Texture;
pub use crate::texture::TextureBuilder;
pub use crate::texture::TextureSampler;
pub use crate::texture::TextureSamplerBuilder;
pub use crate::texture::TextureSwizzle;
pub use crate::texture::TextureUsage;
pub use crate::view::AmbientOcclusion;
pub use crate::view::AntiAliasing;
pub use crate::view::Dithering;
pub use crate::view::RenderView;
pub use crate::view::ToneMapping;
pub use crate::viewport::Viewport;

use vstd::prelude::*;

verus! {

/// The one recoverable failure of this layer: a native factory or builder
/// finalization returned the null handle.
#[derive(Debug, Clone, Copy, PartialEq, Eq, Structural)]
pub enum FilamentError {
    CreationFailed,
}

/// An opaque identifier allocated by the entity registry.  Identity 0 is the
/// null entity.
#[derive(Debug, Clone, Copy, PartialEq, Eq, Hash, Structural)]
pub struct Entity {
    pub id: u32,
}

impl Default for Entity {
    /// The null entity.
    fn default() -> (r: Self)
        ensures
            r.id == 0,
    {
        Entity { id: 0 }
    }
}

/// Which rendering backend the engine instance is asked to drive.
#[allow(non_camel_case_types)]
#[derive(Debug, Clone, Copy, PartialEq, Eq, Hash, Structural)]
pub enum Backend {
    DEFAULT,
    OPENGL,
    VULKAN,
    METAL,
    NOOP,
}

} // verus!
