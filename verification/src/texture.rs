//! Textures and samplers: image resources and how shaders read them.

use vstd::prelude::*;
use crate::Engine;
use crate::EngineError;
use crate::native::Native;
use crate::native::ResourceData;
use crate::native::HeapBlock;
use crate::native::PendingUpload;
use crate::native::rc_after_handle_clone;
use crate::native::rc_after_handle_release;
use crate::native::rc_after_retain;
use crate::native::destroys_after_handle_release;
use crate::native::same_slots;
use crate::native::same_tables;
use crate::native::same_entities;
use crate::native::same_scenes;
use crate::native::same_transforms;
use crate::native::same_names;
use crate::native::same_bindings;
use crate::buffers::BufferDescriptor;
use crate::buffers::queue_upload;

verus! {

/// Magnification filter of a sampler.
#[allow(non_camel_case_types)]
#[derive(Debug, Clone, Copy, PartialEq, Eq, Hash, Structural)]
pub enum SamplerMagFilter {
    NEAREST,
    LINEAR,
}

/// Minification filter of a sampler.
#[allow(non_camel_case_types)]
#[derive(Debug, Clone, Copy, PartialEq, Eq, Hash, Structural)]
pub enum SamplerMinFilter {
    NEAREST,
    LINEAR,
    NEAREST_MIPMAP_NEAREST,
    LINEAR_MIPMAP_NEAREST,
    NEAREST_MIPMAP_LINEAR,
    LINEAR_MIPMAP_LINEAR,
}

/// Wrap mode of a sampler along one axis.
#[allow(non_camel_case_types)]
#[derive(Debug, Clone, Copy, PartialEq, Eq, Hash, Structural)]
pub enum SamplerWrapMode {
    CLAMP_TO_EDGE,
    REPEAT,
    MIRRORED_REPEAT,
}

/// Whether a sampler compares against a reference value.
#[allow(non_camel_case_types)]
#[derive(Debug, Clone, Copy, PartialEq, Eq, Hash, Structural)]
pub enum SamplerCompareMode {
    NONE,
    COMPARE_TO_TEXTURE,
}

/// Comparison function of a comparing sampler.
#[allow(non_camel_case_types)]
#[derive(Debug, Clone, Copy, PartialEq, Eq, Hash, Structural)]
pub enum SamplerCompareFunc {
    LE,
    GE,
    L,
    G,
    E,
    NE,
    A,
    N,
}

/// A complete sampler configuration.
#[derive(Debug, Clone, Copy, PartialEq, Eq, Hash, Structural)]
pub struct TextureSampler {
    pub filter_mag: SamplerMagFilter,
    pub filter_min: SamplerMinFilter,
    pub wrap_s: SamplerWrapMode,
    pub wrap_t: SamplerWrapMode,
    pub wrap_r: SamplerWrapMode,
    pub anisotropy_log2: u8,
    pub compare_mode: SamplerCompareMode,
    pub compare_func: SamplerCompareFunc,
}

impl TextureSampler {
    pub fn builder() -> (r: TextureSamplerBuilder)
        ensures
            r == TextureSamplerBuilder::default_spec(),
    {
        TextureSamplerBuilder::new()
    }
}

impl Default for TextureSampler {
    /// The sampler the default builder produces: nearest filtering,
    /// clamp-to-edge wrapping, no anisotropy, no comparison.
    fn default() -> (r: Self)
        ensures
            r == TextureSamplerBuilder::default_spec().build_spec(),
    {
        TextureSamplerBuilder::new().build()
    }
}

/// Accumulates a sampler configuration field by field.
#[derive(Debug, Clone, Copy, PartialEq, Eq, Hash, Structural)]
pub struct TextureSamplerBuilder {
    pub filter_mag: SamplerMagFilter,
    pub filter_min: SamplerMinFilter,
    pub wrap_s: SamplerWrapMode,
    pub wrap_t: SamplerWrapMode,
    pub wrap_r: SamplerWrapMode,
    pub anisotropy_log2: u8,
    pub compare_mode: SamplerCompareMode,
    pub compare_func: SamplerCompareFunc,
}

impl TextureSamplerBuilder {
    /// The builder's starting configuration.
    pub open spec fn default_spec() -> TextureSamplerBuilder {
        TextureSamplerBuilder {
            filter_mag: SamplerMagFilter::NEAREST,
            filter_min: SamplerMinFilter::NEAREST,
            wrap_s: SamplerWrapMode::CLAMP_TO_EDGE,
            wrap_t: SamplerWrapMode::CLAMP_TO_EDGE,
            wrap_r: SamplerWrapMode::CLAMP_TO_EDGE,
            anisotropy_log2: 0,
            compare_mode: SamplerCompareMode::NONE,
            compare_func: SamplerCompareFunc::LE,
        }
    }

    /// The sampler a build of this configuration packs.
    pub open spec fn build_spec(self) -> TextureSampler {
        TextureSampler {
            filter_mag: self.filter_mag,
            filter_min: self.filter_min,
            wrap_s: self.wrap_s,
            wrap_t: self.wrap_t,
            wrap_r: self.wrap_r,
            anisotropy_log2: self.anisotropy_log2,
            compare_mode: self.compare_mode,
            compare_func: self.compare_func,
        }
    }

    pub fn new() -> (r: Self)
        ensures
            r == Self::default_spec(),
    {
        TextureSamplerBuilder {
            filter_mag: SamplerMagFilter::NEAREST,
            filter_min: SamplerMinFilter::NEAREST,
            wrap_s: SamplerWrapMode::CLAMP_TO_EDGE,
            wrap_t: SamplerWrapMode::CLAMP_TO_EDGE,
            wrap_r: SamplerWrapMode::CLAMP_TO_EDGE,
            anisotropy_log2: 0,
            compare_mode: SamplerCompareMode::NONE,
            compare_func: SamplerCompareFunc::LE,
        }
    }

    pub fn filter_mag(self, filter: SamplerMagFilter) -> (r: Self)
        ensures
            r == (TextureSamplerBuilder { filter_mag: filter, ..self }),
    {
        let mut b = self;
        b.filter_mag = filter;
        b
    }

    pub fn filter_min(self, filter: SamplerMinFilter) -> (r: Self)
        ensures
            r == (TextureSamplerBuilder { filter_min: filter, ..self }),
    {
        let mut b = self;
        b.filter_min = filter;
        b
    }

    pub fn wrap_s(self, mode: SamplerWrapMode) -> (r: Self)
        ensures
            r == (TextureSamplerBuilder { wrap_s: mode, ..self }),
    {
        let mut b = self;
        b.wrap_s = mode;
        b
    }

    pub fn wrap_t(self, mode: SamplerWrapMode) -> (r: Self)
        ensures
            r == (TextureSamplerBuilder { wrap_t: mode, ..self }),
    {
        let mut b = self;
        b.wrap_t = mode;
        b
    }

    pub fn wrap_r(self, mode: SamplerWrapMode) -> (r: Self)
        ensures
            r == (TextureSamplerBuilder { wrap_r: mode, ..self }),
    {
        let mut b = self;
        b.wrap_r = mode;
        b
    }

    pub fn anisotropy_log2(self, anisotropy_log2: u8) -> (r: Self)
        ensures
            r == (TextureSamplerBuilder { anisotropy_log2, ..self }),
    {
        let mut b = self;
        b.anisotropy_log2 = anisotropy_log2;
        b
    }

    pub fn compare_mode(self, mode: SamplerCompareMode) -> (r: Self)
        ensures
            r == (TextureSamplerBuilder { compare_mode: mode, ..self }),
    {
        let mut b = self;
        b.compare_mode = mode;
        b
    }

    pub fn compare_func(self, mode: SamplerCompareFunc) -> (r: Self)
        ensures
            r == (TextureSamplerBuilder { compare_func: mode, ..self }),
    {
        let mut b = self;
        b.compare_func = mode;
        b
    }

    /// Packs the accumulated configuration into a sampler value.
    pub fn build(self) -> (r: TextureSampler)
        ensures
            r == self.build_spec(),
    {
        TextureSampler {
            filter_mag: self.filter_mag,
            filter_min: self.filter_min,
            wrap_s: self.wrap_s,
            wrap_t: self.wrap_t,
            wrap_r: self.wrap_r,
            anisotropy_log2: self.anisotropy_log2,
            compare_mode: self.compare_mode,
            compare_func: self.compare_func,
        }
    }
}

/// Dimensionality a texture is sampled as.
#[allow(non_camel_case_types)]
#[derive(Debug, Clone, Copy, PartialEq, Eq, Hash, Structural)]
pub enum SamplerType {
    SAMPLER_2D,
    SAMPLER_2D_ARRAY,
    SAMPLER_CUBEMAP,
    SAMPLER_EXTERNAL,
    SAMPLER_3D,
}

/// Internal storage format of a texture.
#[allow(non_camel_case_types)]
#[derive(Debug, Clone, Copy, PartialEq, Eq, Hash, Structural)]
pub enum InternalFormat {
    R8,
    RG8,
    RGB8,
    RGBA8,
    SRGB8,
    SRGB8_A8,
    RGB565,
    RGB5_A1,
    RGBA4,
    RGB16F,
    RGBA16F,
    DEPTH16,
    DEPTH24,
    DEPTH32F,
}

/// Channel source of one swizzle slot.
#[allow(non_camel_case_types)]
#[derive(Debug, Clone, Copy, PartialEq, Eq, Hash, Structural)]
pub enum TextureSwizzle {
    SUBSTITUTE_ZERO,
    SUBSTITUTE_ONE,
    CHANNEL_0,
    CHANNEL_1,
    CHANNEL_2,
    CHANNEL_3,
}

/// Channel layout of pixel data handed to a texture.
#[allow(non_camel_case_types)]
#[derive(Debug, Clone, Copy, PartialEq, Eq, Hash, Structural)]
pub enum PixelDataFormat {
    R,
    R_INTEGER,
    RG,
    RG_INTEGER,
    RGB,
    RGB_INTEGER,
    RGBA,
    RGBA_INTEGER,
    DEPTH_COMPONENT,
    DEPTH_STENCIL,
    ALPHA,
}

/// Scalar type of pixel data handed to a texture.
#[allow(non_camel_case_types)]
#[derive(Debug, Clone, Copy, PartialEq, Eq, Hash, Structural)]
pub enum PixelDataType {
    UBYTE,
    BYTE,
    USHORT,
    SHORT,
    UINT,
    INT,
    HALF,
    FLOAT,
}

/// The texture cannot be used for anything.
pub const TEXTURE_USAGE_NONE: u8 = 0x0;

/// The texture can be a color attachment.
pub const TEXTURE_USAGE_COLOR_ATTACHMENT: u8 = 0x1;

/// The texture can be a depth attachment.
pub const TEXTURE_USAGE_DEPTH_ATTACHMENT: u8 = 0x2;

/// The texture can be a stencil attachment.
pub const TEXTURE_USAGE_STENCIL_ATTACHMENT: u8 = 0x4;

/// Data can be uploaded into the texture.
pub const TEXTURE_USAGE_UPLOADABLE: u8 = 0x8;

/// The texture can be sampled.
pub const TEXTURE_USAGE_SAMPLEABLE: u8 = 0x10;

/// Default usage: uploadable and sampleable.
pub const TEXTURE_USAGE_DEFAULT: u8 = 0x18;

/// Usage bitmask of a texture.
#[derive(Debug, Clone, Copy, PartialEq, Eq, Hash, Structural)]
pub struct TextureUsage {
    pub bits: u8,
}

impl TextureUsage {
    pub fn from_bits(bits: u8) -> (r: Self)
        ensures
            r.bits == bits,
    {
        TextureUsage { bits }
    }
}

/// What the native side keeps about a texture.
#[derive(Debug, Clone, Copy, PartialEq, Eq, Hash, Structural)]
pub struct TexState {
    pub width: u32,
    pub height: u32,
    pub depth: u32,
    pub levels: u8,
    pub sampler: SamplerType,
    pub format: InternalFormat,
    pub usage: u8,
    pub swizzle_r: TextureSwizzle,
    pub swizzle_g: TextureSwizzle,
    pub swizzle_b: TextureSwizzle,
    pub swizzle_a: TextureSwizzle,
    /// Identifier of an imported native texture object, 0 when none.
    pub imported: i64,
}

/// The texture state recorded in slot `raw`.
pub open spec fn texture_state(n: Native, raw: u64) -> TexState {
    n.slots.data@[raw as int]->TextureD_tex
}

/// Size of one texture dimension at a mip level: halved per level, never
/// below one.
pub open spec fn mip_dim(d: int, level: int) -> int
    decreases level,
{
    if level <= 0 {
        d
    } else {
        let p = mip_dim(d, level - 1);
        if p / 2 >= 1 {
            p / 2
        } else {
            1
        }
    }
}

/// A pixel-data ownership record: the transferred block plus how its bytes
/// are to be read.
#[derive(Debug, Clone, Copy, PartialEq, Eq, Structural)]
pub struct PixelBufferDescriptor {
    pub base: BufferDescriptor,
    pub format: PixelDataFormat,
    pub ty: PixelDataType,
}

/// Hands the uniquely owned block `data` to the native side as pixel data
/// and returns the descriptor recording it, as
/// [`crate::buffers::make_buffer_descriptor`] does for plain buffers.
pub fn make_pixel_buffer_descriptor(
    native: &mut Native,
    data: Vec<u8>,
    format: PixelDataFormat,
    ty: PixelDataType,
) -> (desc: PixelBufferDescriptor)
    requires
        old(native).wf(),
        old(native).heap.blocks@.len() < u64::MAX,
    ensures
        final(native).wf(),
        same_slots(*old(native), *final(native)),
        same_entities(*old(native), *final(native)),
        same_scenes(*old(native), *final(native)),
        same_transforms(*old(native), *final(native)),
        same_names(*old(native), *final(native)),
        same_bindings(*old(native), *final(native)),
        final(native).fail_creation == old(native).fail_creation,
        final(native).heap.blocks@ == old(native).heap.blocks@.push(HeapBlock::Held(data)),
        final(native).heap.pending@ == old(native).heap.pending@,
        desc.base.buffer == old(native).heap.blocks@.len(),
        desc.base.size == data@.len(),
        desc.base.callback == Some(crate::buffers::ReleaseCallback::DeallocateRustBuffer),
        desc.base.user == 0,
        desc.format == format,
        desc.ty == ty,
{
    let base = crate::buffers::make_buffer_descriptor(native, data);
    PixelBufferDescriptor { base, format, ty }
}

/// Accumulates the configuration of a texture and performs one finalizing
/// native construction call.  The builder's transient state is this value
/// itself, held by value, so abandoning the builder releases it with the
/// value, whether or not `build` ran.
#[derive(Debug, Clone, Copy, PartialEq, Eq, Hash, Structural)]
pub struct TextureBuilder {
    pub width: u32,
    pub height: u32,
    pub depth: u32,
    pub levels: u8,
    pub sampler: SamplerType,
    pub format: InternalFormat,
    pub usage: u8,
    pub swizzle_r: TextureSwizzle,
    pub swizzle_g: TextureSwizzle,
    pub swizzle_b: TextureSwizzle,
    pub swizzle_a: TextureSwizzle,
    pub imported: i64,
}

impl TextureBuilder {
    /// The builder's starting configuration: a one-texel 2D texture of the
    /// default format and usage.
    pub open spec fn default_spec() -> TextureBuilder {
        TextureBuilder {
            width: 1,
            height: 1,
            depth: 1,
            levels: 1,
            sampler: SamplerType::SAMPLER_2D,
            format: InternalFormat::RGBA8,
            usage: TEXTURE_USAGE_DEFAULT,
            swizzle_r: TextureSwizzle::CHANNEL_0,
            swizzle_g: TextureSwizzle::CHANNEL_1,
            swizzle_b: TextureSwizzle::CHANNEL_2,
            swizzle_a: TextureSwizzle::CHANNEL_3,
            imported: 0,
        }
    }

    /// The texture state a build of this configuration records.
    pub open spec fn build_state(self) -> TexState {
        TexState {
            width: self.width,
            height: self.height,
            depth: self.depth,
            levels: self.levels,
            sampler: self.sampler,
            format: self.format,
            usage: self.usage,
            swizzle_r: self.swizzle_r,
            swizzle_g: self.swizzle_g,
            swizzle_b: self.swizzle_b,
            swizzle_a: self.swizzle_a,
            imported: self.imported,
        }
    }

    /// Obtains a fresh builder.  The result shape matches the native call,
    /// whose by-value construction cannot fail.
    pub fn new() -> (r: Result<Self, EngineError>)
        ensures
            r matches Ok(b) && b == Self::default_spec(),
    {
        Ok(TextureBuilder {
            width: 1,
            height: 1,
            depth: 1,
            levels: 1,
            sampler: SamplerType::SAMPLER_2D,
            format: InternalFormat::RGBA8,
            usage: TEXTURE_USAGE_DEFAULT,
            swizzle_r: TextureSwizzle::CHANNEL_0,
            swizzle_g: TextureSwizzle::CHANNEL_1,
            swizzle_b: TextureSwizzle::CHANNEL_2,
            swizzle_a: TextureSwizzle::CHANNEL_3,
            imported: 0,
        })
    }

    pub fn width(self, width: usize) -> (r: Self)
        requires
            width <= u32::MAX,
        ensures
            r == (TextureBuilder { width: width as u32, ..self }),
    {
        let mut b = self;
        b.width = width as u32;
        b
    }

    pub fn height(self, height: usize) -> (r: Self)
        requires
            height <= u32::MAX,
        ensures
            r == (TextureBuilder { height: height as u32, ..self }),
    {
        let mut b = self;
        b.height = height as u32;
        b
    }

    pub fn depth(self, depth: usize) -> (r: Self)
        requires
            depth <= u32::MAX,
        ensures
            r == (TextureBuilder { depth: depth as u32, ..self }),
    {
        let mut b = self;
        b.depth = depth as u32;
        b
    }

    pub fn levels(self, levels: usize) -> (r: Self)
        requires
            levels <= u8::MAX,
        ensures
            r == (TextureBuilder { levels: levels as u8, ..self }),
    {
        let mut b = self;
        b.levels = levels as u8;
        b
    }

    pub fn sampler(self, sampler: SamplerType) -> (r: Self)
        ensures
            r == (TextureBuilder { sampler, ..self }),
    {
        let mut b = self;
        b.sampler = sampler;
        b
    }

    pub fn format(self, internal_format: InternalFormat) -> (r: Self)
        ensures
            r == (TextureBuilder { format: internal_format, ..self }),
    {
        let mut b = self;
        b.format = internal_format;
        b
    }

    pub fn usage(self, usage: TextureUsage) -> (r: Self)
        ensures
            r == (TextureBuilder { usage: usage.bits, ..self }),
    {
        let mut b = self;
        b.usage = usage.bits;
        b
    }

    pub fn swizzle(self, r_ch: TextureSwizzle, g_ch: TextureSwizzle, b_ch: TextureSwizzle, a_ch: TextureSwizzle) -> (r: Self)
        ensures
            r == (TextureBuilder {
                swizzle_r: r_ch,
                swizzle_g: g_ch,
                swizzle_b: b_ch,
                swizzle_a: a_ch,
                ..self
            }),
    {
        let mut b = self;
        b.swizzle_r = r_ch;
        b.swizzle_g = g_ch;
        b.swizzle_b = b_ch;
        b.swizzle_a = a_ch;
        b
    }

    pub fn import(self, id: isize) -> (r: Self)
        ensures
            r == (TextureBuilder { imported: id as i64, ..self }),
    {
        let mut b = self;
        b.imported = id as i64;
        b
    }

    /// The one finalizing native construction call.  Fails exactly when the
    /// native factory returns null, in which case nothing was created.
    pub fn build(self, native: &mut Native, engine: &Engine) -> (r: Result<Texture, EngineError>)
        requires
            old(native).wf(),
            engine.wf(*old(native)),
            old(native).slots.slot_count() < u64::MAX,
            old(native).slots.rc@[engine.raw as int] < u64::MAX,
        ensures
            final(native).wf(),
            same_tables(*old(native), *final(native)),
            old(native).fail_creation ==> (r matches Err(EngineError::CreationFailed))
                && same_slots(*old(native), *final(native)),
            !old(native).fail_creation ==> (r matches Ok(t) && {
                &&& t.raw == old(native).slots.slot_count()
                &&& t.engine == engine.raw
                &&& t.wf(*final(native))
                &&& final(native).slots.rc@ == rc_after_retain(
                    old(native).slots.rc@.push(1u64), engine.raw as int)
                &&& final(native).slots.destroys@ == old(native).slots.destroys@.push(0u64)
                &&& final(native).slots.data@ == old(native).slots.data@.push(
                    ResourceData::TextureD { tex: self.build_state() })
                &&& texture_state(*final(native), t.raw) == self.build_state()
            }),
    {
        let raw = native.create_dependent_slot(
            ResourceData::TextureD { tex: TexState {
                width: self.width,
                height: self.height,
                depth: self.depth,
                levels: self.levels,
                sampler: self.sampler,
                format: self.format,
                usage: self.usage,
                swizzle_r: self.swizzle_r,
                swizzle_g: self.swizzle_g,
                swizzle_b: self.swizzle_b,
                swizzle_a: self.swizzle_a,
                imported: self.imported,
            } },
            engine.raw,
        );
        if raw == 0 {
            Err(EngineError::CreationFailed)
        } else {
            Ok(Texture { raw, engine: engine.raw })
        }
    }
}

/// A reference-counted handle to one native texture; it keeps its own clone
/// of the engine handle.
#[derive(Debug, PartialEq, Eq, Hash, Structural)]
pub struct Texture {
    pub raw: u64,
    pub engine: u64,
}

impl Texture {
    pub open spec fn wf(self, n: Native) -> bool {
        &&& n.slots.live(self.raw)
        &&& n.slots.data@[self.raw as int] is TextureD
        &&& n.slots.live(self.engine)
        &&& n.slots.data@[self.engine as int] is EngineD
    }

    /// The identifiers are in range and distinct; all a release needs.
    pub open spec fn ids_ok(self, n: Native) -> bool {
        &&& 0 < self.raw < n.slots.slot_count()
        &&& 0 < self.engine < n.slots.slot_count()
        &&& self.raw != self.engine
    }

    pub fn builder() -> (r: Result<TextureBuilder, EngineError>)
        ensures
            r matches Ok(b) && b == TextureBuilder::default_spec(),
    {
        TextureBuilder::new()
    }

    /// Reads the recorded texture state.
    fn state(&self, native: &Native) -> (r: TexState)
        requires
            native.wf(),
            self.wf(*native),
        ensures
            r == texture_state(*native, self.raw),
    {
        let n = native.slots.data.len();
        assert(self.raw < n);
        match native.slots.data[self.raw as usize] {
            ResourceData::TextureD { tex } => tex,
            _ => {
                proof {
                    assert(false);
                }
                TexState {
                    width: 1,
                    height: 1,
                    depth: 1,
                    levels: 1,
                    sampler: SamplerType::SAMPLER_2D,
                    format: InternalFormat::RGBA8,
                    usage: TEXTURE_USAGE_DEFAULT,
                    swizzle_r: TextureSwizzle::CHANNEL_0,
                    swizzle_g: TextureSwizzle::CHANNEL_1,
                    swizzle_b: TextureSwizzle::CHANNEL_2,
                    swizzle_a: TextureSwizzle::CHANNEL_3,
                    imported: 0,
                }
            }
        }
    }

    /// The width of mip level `level`: the configured width halved per
    /// level, never below one.
    pub fn width(&self, native: &Native, level: usize) -> (r: usize)
        requires
            native.wf(),
            self.wf(*native),
            level < texture_state(*native, self.raw).levels,
        ensures
            r == mip_dim(texture_state(*native, self.raw).width as int, level as int),
    {
        let s = self.state(native);
        mip_dim_exec(s.width, level)
    }

    /// The height of mip level `level`, as [`Texture::width`].
    pub fn height(&self, native: &Native, level: usize) -> (r: usize)
        requires
            native.wf(),
            self.wf(*native),
            level < texture_state(*native, self.raw).levels,
        ensures
            r == mip_dim(texture_state(*native, self.raw).height as int, level as int),
    {
        let s = self.state(native);
        mip_dim_exec(s.height, level)
    }

    /// The depth of mip level `level`, as [`Texture::width`].
    pub fn depth(&self, native: &Native, level: usize) -> (r: usize)
        requires
            native.wf(),
            self.wf(*native),
            level < texture_state(*native, self.raw).levels,
        ensures
            r == mip_dim(texture_state(*native, self.raw).depth as int, level as int),
    {
        let s = self.state(native);
        mip_dim_exec(s.depth, level)
    }

    /// How many mip levels the texture was created with.
    pub fn levels(&self, native: &Native) -> (r: usize)
        requires
            native.wf(),
            self.wf(*native),
        ensures
            r == texture_state(*native, self.raw).levels,
    {
        self.state(native).levels as usize
    }

    /// The sampler dimensionality the texture was created for.
    pub fn target(&self, native: &Native) -> (r: SamplerType)
        requires
            native.wf(),
            self.wf(*native),
        ensures
            r == texture_state(*native, self.raw).sampler,
    {
        self.state(native).sampler
    }

    /// The internal storage format the texture was created with.
    pub fn format(&self, native: &Native) -> (r: InternalFormat)
        requires
            native.wf(),
            self.wf(*native),
        ensures
            r == texture_state(*native, self.raw).format,
    {
        self.state(native).format
    }

    /// Transfers `data` to the native side as the pixel contents of mip
    /// level `level`; the upload is in flight until the engine completes it
    /// and fires the release callback.
    pub fn set(&self, native: &mut Native, level: usize, data: Vec<u8>, format: PixelDataFormat, ty: PixelDataType)
        requires
            old(native).wf(),
            self.wf(*old(native)),
            level <= u32::MAX,
            old(native).heap.blocks@.len() < u64::MAX,
        ensures
            final(native).wf(),
            same_slots(*old(native), *final(native)),
            same_entities(*old(native), *final(native)),
            same_scenes(*old(native), *final(native)),
            same_transforms(*old(native), *final(native)),
            same_names(*old(native), *final(native)),
            same_bindings(*old(native), *final(native)),
            final(native).fail_creation == old(native).fail_creation,
            final(native).heap.blocks@ == old(native).heap.blocks@.push(HeapBlock::Held(data)),
            final(native).heap.pending@ == old(native).heap.pending@.push(PendingUpload {
                target: self.raw,
                buffer: old(native).heap.blocks@.len() as u64,
                size: data@.len() as u64,
                slot_index: level as u64,
                byte_offset: 0,
            }),
    {
        let _ = format;
        let _ = ty;
        let _ = queue_upload(native, self.raw, level as u64, 0, data);
    }

    /// Clones the handle: one more owner of the texture, and one more owner
    /// of the engine for the clone's own engine reference.
    pub fn clone_handle(&self, native: &mut Native) -> (c: Texture)
        requires
            old(native).wf(),
            self.wf(*old(native)),
            old(native).slots.rc@[self.raw as int] < u64::MAX,
            old(native).slots.rc@[self.engine as int] < u64::MAX,
        ensures
            final(native).wf(),
            same_tables(*old(native), *final(native)),
            c.raw == self.raw,
            c.engine == self.engine,
            c.wf(*final(native)),
            final(native).slots.rc@ == rc_after_handle_clone(
                old(native).slots.rc@, self.raw as int, self.engine as int),
            final(native).slots.destroys@ == old(native).slots.destroys@,
            final(native).slots.data@ == old(native).slots.data@,
    {
        proof {
            assert(self.raw != self.engine);
        }
        native.retain_pair(self.raw, self.engine);
        Texture { raw: self.raw, engine: self.engine }
    }

    /// Releases the handle: the texture is destroyed exactly when this was
    /// its last owner, and the engine clone the handle kept is released
    /// afterwards.
    pub fn release(self, native: &mut Native)
        requires
            old(native).wf(),
            self.ids_ok(*old(native)),
        ensures
            final(native).wf(),
            same_tables(*old(native), *final(native)),
            final(native).slots.rc@ == rc_after_handle_release(
                old(native).slots.rc@, self.raw as int, self.engine as int),
            final(native).slots.destroys@ == destroys_after_handle_release(
                old(native).slots.rc@, old(native).slots.destroys@,
                self.raw as int, self.engine as int),
            final(native).slots.data@ == old(native).slots.data@,
            old(native).slots.rc@[self.raw as int] == 1
                ==> final(native).slots.destroys@[self.raw as int]
                    == old(native).slots.destroys@[self.raw as int] + 1,
            old(native).slots.rc@[self.raw as int] != 1
                ==> final(native).slots.destroys@[self.raw as int]
                    == old(native).slots.destroys@[self.raw as int],
    {
        native.release_pair(self.raw, self.engine);
    }
}

/// Computes one mip dimension by repeated halving, floored at one.
fn mip_dim_exec(d: u32, level: usize) -> (r: usize)
    ensures
        r == mip_dim(d as int, level as int),
{
    let mut w = d;
    let mut l: usize = 0;
    while l < level
        invariant
            l <= level,
            w == mip_dim(d as int, l as int),
        decreases level - l,
    {
        if w / 2 >= 1 {
            w = w / 2;
        } else {
            w = 1;
        }
        l = l + 1;
    }
    w as usize
}

/// Law: building a texture records exactly the configured state, so the
/// queries at mip level zero return the configured width and height, and
/// the format query returns the configured internal format.
pub proof fn lemma_texture_builder_roundtrip(n: Native, b: TextureBuilder, raw: u64)
    requires
        n.wf(),
        n.slots.live(raw),
        n.slots.data@[raw as int] is TextureD,
        texture_state(n, raw) == b.build_state(),
    ensures
        mip_dim(texture_state(n, raw).width as int, 0) == b.width,
        mip_dim(texture_state(n, raw).height as int, 0) == b.height,
        texture_state(n, raw).format == b.format,
{
}

} // verus!
