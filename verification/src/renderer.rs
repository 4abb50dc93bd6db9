//! Renderers: per-frame drawing drivers.  Frame calls are pure
//! pass-throughs to the native side.

use vstd::prelude::*;
use crate::Engine;
use crate::EngineError;
use crate::Viewport;
use crate::native::Native;
use crate::native::ResourceData;
use crate::native::rc_after_handle_clone;
use crate::native::rc_after_handle_release;
use crate::native::rc_after_retain;
use crate::native::destroys_after_handle_release;
use crate::native::same_slots;
use crate::native::same_tables;
use crate::swapchain::SwapChain;
use crate::transform::FLOAT_ONE_BITS;
use crate::view::RenderView;

verus! {

/// What a frame starts by doing to the render target: the clear color as
/// four scalar bit patterns, whether to clear, whether to discard previous
/// contents.
#[derive(Debug, Clone, Copy)]
pub struct ClearOptions {
    pub clear_color: [u32; 4],
    pub clear: bool,
    pub discard: bool,
}

/// The clear options a renderer starts from: clear to opaque blue,
/// discarding previous contents.
pub open spec fn default_clear_options() -> ClearOptions {
    ClearOptions {
        clear_color: [0u32, 0u32, FLOAT_ONE_BITS, FLOAT_ONE_BITS],
        clear: true,
        discard: true,
    }
}

impl Default for ClearOptions {
    /// Clear to opaque blue, discarding previous contents.
    fn default() -> (r: Self)
        ensures
            r == default_clear_options(),
            r.clear_color@ == seq![0u32, 0u32, FLOAT_ONE_BITS, FLOAT_ONE_BITS],
            r.clear,
            r.discard,
    {
        let clear_color: [u32; 4] = [0, 0, FLOAT_ONE_BITS, FLOAT_ONE_BITS];
        proof {
            assert(clear_color@ =~= seq![0u32, 0u32, FLOAT_ONE_BITS, FLOAT_ONE_BITS]);
            assert(clear_color =~= default_clear_options().clear_color);
        }
        ClearOptions { clear_color, clear: true, discard: true }
    }
}

/// Commit the copied frame to its swapchain.
pub const COPY_FRAME_COMMIT: u32 = 0x1;

/// Set the presentation time on the destination.
pub const COPY_FRAME_SET_PRESENTATION_TIME: u32 = 0x2;

/// Clear the destination outside the copied rectangle.
pub const COPY_FRAME_CLEAR: u32 = 0x4;

/// Bitmask of frame-copy options.
#[derive(Debug, Clone, Copy, PartialEq, Eq, Hash, Structural)]
pub struct CopyFrameFlags {
    pub bits: u32,
}

impl CopyFrameFlags {
    pub fn empty() -> (r: Self)
        ensures
            r.bits == 0,
    {
        CopyFrameFlags { bits: 0 }
    }

    pub fn from_bits(bits: u32) -> (r: Self)
        ensures
            r.bits == bits,
    {
        CopyFrameFlags { bits }
    }
}

/// Properties of the display the renderer presents to.  The refresh rate
/// crosses the native boundary as the bit pattern of its scalar value.
#[derive(Debug, Clone, Copy, PartialEq, Eq, Hash, Structural)]
pub struct DisplayInfo {
    pub refresh_rate: u64,
    pub presentation_deadline_nanos: u64,
    pub vsync_offset_nanos: u64,
}

/// Frame pacing parameters.  Scalar ratios cross the native boundary as
/// the bit patterns of their values.
#[derive(Debug, Clone, Copy, PartialEq, Eq, Hash, Structural)]
pub struct FrameRateOptions {
    pub head_room_ratio: u32,
    pub scale_rate: u32,
    pub history: u8,
    pub interval: u8,
}

/// What the native side keeps about a renderer.
#[derive(Debug, Clone, Copy)]
pub struct RenState {
    /// A frame is open: `begin_frame` has run and `end_frame` has not.
    pub frame_active: bool,
    pub clear_options: ClearOptions,
    pub display_info: Option<DisplayInfo>,
    pub frame_rate_options: Option<FrameRateOptions>,
}

/// The renderer state recorded in slot `raw`.
pub open spec fn renderer_state(n: Native, raw: u64) -> RenState {
    n.slots.data@[raw as int]->RendererD_ren
}

/// The state a freshly created renderer starts from: no frame open, the
/// default clear options, no display or pacing parameters recorded.
pub open spec fn initial_renderer_state() -> RenState {
    RenState {
        frame_active: false,
        clear_options: default_clear_options(),
        display_info: None,
        frame_rate_options: None,
    }
}

/// Replaces the recorded state of the renderer slot `raw`.
fn set_renderer_state(native: &mut Native, raw: u64, ren: RenState)
    requires
        old(native).wf(),
        old(native).slots.live(raw),
        old(native).slots.data@[raw as int] is RendererD,
    ensures
        final(native).wf(),
        same_tables(*old(native), *final(native)),
        final(native).slots.rc@ == old(native).slots.rc@,
        final(native).slots.destroys@ == old(native).slots.destroys@,
        final(native).slots.data@ == old(native).slots.data@.update(
            raw as int, ResourceData::RendererD { ren }),
{
    let n = native.slots.data.len();
    assert(raw < n);
    native.slots.data[raw as usize] = ResourceData::RendererD { ren };
}

/// Reads the recorded state of the renderer slot `raw`.
fn get_renderer_state(native: &Native, raw: u64) -> (r: RenState)
    requires
        native.wf(),
        native.slots.live(raw),
        native.slots.data@[raw as int] is RendererD,
    ensures
        r == renderer_state(*native, raw),
{
    let n = native.slots.data.len();
    assert(raw < n);
    match native.slots.data[raw as usize] {
        ResourceData::RendererD { ren } => ren,
        _ => {
            proof {
                assert(false);
            }
            RenState {
                frame_active: false,
                clear_options: ClearOptions::default(),
                display_info: None,
                frame_rate_options: None,
            }
        }
    }
}

/// A reference-counted handle to one native renderer; it keeps its own
/// clone of the engine handle.
#[derive(Debug, PartialEq, Eq, Hash, Structural)]
pub struct Renderer {
    pub raw: u64,
    pub engine: u64,
}

impl Renderer {
    pub open spec fn wf(self, n: Native) -> bool {
        &&& n.slots.live(self.raw)
        &&& n.slots.data@[self.raw as int] is RendererD
        &&& n.slots.live(self.engine)
        &&& n.slots.data@[self.engine as int] is EngineD
    }

    /// The identifiers are in range and distinct; all a release needs.
    pub open spec fn ids_ok(self, n: Native) -> bool {
        &&& 0 < self.raw < n.slots.slot_count()
        &&& 0 < self.engine < n.slots.slot_count()
        &&& self.raw != self.engine
    }

    /// Asks the engine for a new renderer, with no frame open and the
    /// default clear options.  Fails exactly when the native factory
    /// returns null, in which case nothing was created.
    pub fn new(native: &mut Native, engine: &Engine) -> (r: Result<Renderer, EngineError>)
        requires
            old(native).wf(),
            engine.wf(*old(native)),
            old(native).slots.slot_count() < u64::MAX,
            old(native).slots.rc@[engine.raw as int] < u64::MAX,
        ensures
            final(native).wf(),
            same_tables(*old(native), *final(native)),
            old(native).fail_creation ==> (r matches Err(EngineError::CreationFailed))
                && same_slots(*old(native), *final(native)),
            !old(native).fail_creation ==> (r matches Ok(rr) && {
                &&& rr.raw == old(native).slots.slot_count()
                &&& rr.engine == engine.raw
                &&& rr.wf(*final(native))
                &&& final(native).slots.rc@ == rc_after_retain(
                    old(native).slots.rc@.push(1u64), engine.raw as int)
                &&& final(native).slots.destroys@ == old(native).slots.destroys@.push(0u64)
                &&& final(native).slots.data@ == old(native).slots.data@.push(
                    ResourceData::RendererD { ren: initial_renderer_state() })
                &&& renderer_state(*final(native), rr.raw) == initial_renderer_state()
                &&& !renderer_state(*final(native), rr.raw).frame_active
            }),
    {
        let ren = RenState {
            frame_active: false,
            clear_options: ClearOptions::default(),
            display_info: None,
            frame_rate_options: None,
        };
        proof {
            assert(ren.clear_options.clear_color =~= initial_renderer_state().clear_options.clear_color);
            assert(ren == initial_renderer_state());
        }
        let raw = native.create_dependent_slot(ResourceData::RendererD { ren }, engine.raw);
        if raw == 0 {
            Err(EngineError::CreationFailed)
        } else {
            Ok(Renderer { raw, engine: engine.raw })
        }
    }

    /// Records the clear options the next frames start from.
    pub fn set_clear_options(&self, native: &mut Native, clear_options: ClearOptions)
        requires
            old(native).wf(),
            self.wf(*old(native)),
        ensures
            final(native).wf(),
            same_tables(*old(native), *final(native)),
            final(native).slots.rc@ == old(native).slots.rc@,
            final(native).slots.destroys@ == old(native).slots.destroys@,
            final(native).slots.data@ == old(native).slots.data@.update(
                self.raw as int,
                ResourceData::RendererD { ren: RenState {
                    clear_options,
                    ..renderer_state(*old(native), self.raw)
                } }),
            renderer_state(*final(native), self.raw).clear_options == clear_options,
    {
        let ren = get_renderer_state(native, self.raw);
        set_renderer_state(native, self.raw, RenState { clear_options, ..ren });
    }

    /// Records the properties of the display the next frames present to.
    pub fn set_display_info(&self, native: &mut Native, display_info: DisplayInfo)
        requires
            old(native).wf(),
            self.wf(*old(native)),
        ensures
            final(native).wf(),
            same_tables(*old(native), *final(native)),
            final(native).slots.rc@ == old(native).slots.rc@,
            final(native).slots.destroys@ == old(native).slots.destroys@,
            final(native).slots.data@ == old(native).slots.data@.update(
                self.raw as int,
                ResourceData::RendererD { ren: RenState {
                    display_info: Some(display_info),
                    ..renderer_state(*old(native), self.raw)
                } }),
            renderer_state(*final(native), self.raw).display_info == Some(display_info),
    {
        let ren = get_renderer_state(native, self.raw);
        set_renderer_state(native, self.raw, RenState { display_info: Some(display_info), ..ren });
    }

    /// Records the frame pacing parameters the next frames run under.
    pub fn set_frame_rate_options(&self, native: &mut Native, frame_rate_options: FrameRateOptions)
        requires
            old(native).wf(),
            self.wf(*old(native)),
        ensures
            final(native).wf(),
            same_tables(*old(native), *final(native)),
            final(native).slots.rc@ == old(native).slots.rc@,
            final(native).slots.destroys@ == old(native).slots.destroys@,
            final(native).slots.data@ == old(native).slots.data@.update(
                self.raw as int,
                ResourceData::RendererD { ren: RenState {
                    frame_rate_options: Some(frame_rate_options),
                    ..renderer_state(*old(native), self.raw)
                } }),
            renderer_state(*final(native), self.raw).frame_rate_options == Some(frame_rate_options),
    {
        let ren = get_renderer_state(native, self.raw);
        set_renderer_state(native, self.raw, RenState {
            frame_rate_options: Some(frame_rate_options),
            ..ren
        });
    }

    /// Restarts the native user-time clock; a pure pass-through with no
    /// effect the wrapper can observe.
    pub fn reset_user_time(&self, native: &mut Native)
        requires
            old(native).wf(),
            self.wf(*old(native)),
        ensures
            final(native).wf(),
            same_tables(*old(native), *final(native)),
            same_slots(*old(native), *final(native)),
    {
    }

    /// Opens a frame on `swapchain`.  The native pacing decision is out of
    /// this layer's sight; the model always proceeds, so the result is
    /// `true` and a frame is open afterwards.
    pub fn begin_frame(&self, native: &mut Native, swapchain: &SwapChain, vsync_steady_clock_time_nano: u64) -> (proceed: bool)
        requires
            old(native).wf(),
            self.wf(*old(native)),
            swapchain.wf(*old(native)),
        ensures
            final(native).wf(),
            same_tables(*old(native), *final(native)),
            proceed,
            final(native).slots.rc@ == old(native).slots.rc@,
            final(native).slots.destroys@ == old(native).slots.destroys@,
            final(native).slots.data@ == old(native).slots.data@.update(
                self.raw as int,
                ResourceData::RendererD { ren: RenState {
                    frame_active: true,
                    ..renderer_state(*old(native), self.raw)
                } }),
            renderer_state(*final(native), self.raw).frame_active,
    {
        let _ = vsync_steady_clock_time_nano;
        let ren = get_renderer_state(native, self.raw);
        set_renderer_state(native, self.raw, RenState { frame_active: true, ..ren });
        true
    }

    /// Closes the open frame, handing it to the native side for
    /// presentation.
    pub fn end_frame(&self, native: &mut Native)
        requires
            old(native).wf(),
            self.wf(*old(native)),
        ensures
            final(native).wf(),
            same_tables(*old(native), *final(native)),
            final(native).slots.rc@ == old(native).slots.rc@,
            final(native).slots.destroys@ == old(native).slots.destroys@,
            final(native).slots.data@ == old(native).slots.data@.update(
                self.raw as int,
                ResourceData::RendererD { ren: RenState {
                    frame_active: false,
                    ..renderer_state(*old(native), self.raw)
                } }),
            !renderer_state(*final(native), self.raw).frame_active,
    {
        let ren = get_renderer_state(native, self.raw);
        set_renderer_state(native, self.raw, RenState { frame_active: false, ..ren });
    }

    /// Draws `view` into the open frame: a pure pass-through with no effect
    /// the wrapper can observe.
    pub fn render(&self, native: &mut Native, view: &RenderView)
        requires
            old(native).wf(),
            self.wf(*old(native)),
            view.wf(*old(native)),
        ensures
            final(native).wf(),
            same_tables(*old(native), *final(native)),
            same_slots(*old(native), *final(native)),
    {
    }

    /// Copies the current frame into `dst_swapchain`: a pure pass-through
    /// with no effect the wrapper can observe.
    pub fn copy_frame(
        &self,
        native: &mut Native,
        dst_swapchain: &SwapChain,
        dst_viewport: Viewport,
        src_viewport: Viewport,
        flags: CopyFrameFlags,
    )
        requires
            old(native).wf(),
            self.wf(*old(native)),
            dst_swapchain.wf(*old(native)),
        ensures
            final(native).wf(),
            same_tables(*old(native), *final(native)),
            same_slots(*old(native), *final(native)),
    {
        let _ = dst_viewport;
        let _ = src_viewport;
        let _ = flags;
    }

    /// Clones the handle: one more owner of the renderer, and one more
    /// owner of the engine for the clone's own engine reference.
    pub fn clone_handle(&self, native: &mut Native) -> (c: Renderer)
        requires
            old(native).wf(),
            self.wf(*old(native)),
            old(native).slots.rc@[self.raw as int] < u64::MAX,
            old(native).slots.rc@[self.engine as int] < u64::MAX,
        ensures
            final(native).wf(),
            same_tables(*old(native), *final(native)),
            c.raw == self.raw,
            c.engine == self.engine,
            c.wf(*final(native)),
            final(native).slots.rc@ == rc_after_handle_clone(
                old(native).slots.rc@, self.raw as int, self.engine as int),
            final(native).slots.destroys@ == old(native).slots.destroys@,
            final(native).slots.data@ == old(native).slots.data@,
    {
        proof {
            assert(self.raw != self.engine);
        }
        native.retain_pair(self.raw, self.engine);
        Renderer { raw: self.raw, engine: self.engine }
    }

    /// Releases the handle: the renderer is destroyed exactly when this was
    /// its last owner, and the engine clone the handle kept is released
    /// afterwards.
    pub fn release(self, native: &mut Native)
        requires
            old(native).wf(),
            self.ids_ok(*old(native)),
        ensures
            final(native).wf(),
            same_tables(*old(native), *final(native)),
            final(native).slots.rc@ == rc_after_handle_release(
                old(native).slots.rc@, self.raw as int, self.engine as int),
            final(native).slots.destroys@ == destroys_after_handle_release(
                old(native).slots.rc@, old(native).slots.destroys@,
                self.raw as int, self.engine as int),
            final(native).slots.data@ == old(native).slots.data@,
            old(native).slots.rc@[self.raw as int] == 1
                ==> final(native).slots.destroys@[self.raw as int]
                    == old(native).slots.destroys@[self.raw as int] + 1,
            old(native).slots.rc@[self.raw as int] != 1
                ==> final(native).slots.destroys@[self.raw as int]
                    == old(native).slots.destroys@[self.raw as int],
    {
        native.release_pair(self.raw, self.engine);
    }
}

} // verus!
