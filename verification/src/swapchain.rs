//! Swapchains: the presentable surface rendering output targets.

use vstd::prelude::*;
use crate::Engine;
use crate::EngineError;
use crate::native::Native;
use crate::native::ResourceData;
use crate::native::rc_after_handle_clone;
use crate::native::rc_after_handle_release;
use crate::native::rc_after_retain;
use crate::native::destroys_after_handle_release;
use crate::native::same_slots;
use crate::native::same_tables;

verus! {

/// The surface can blend with what is behind it.
pub const SWAP_CHAIN_CONFIG_TRANSPARENT: u64 = 0x1;

/// The surface contents can be read back.
pub const SWAP_CHAIN_CONFIG_READABLE: u64 = 0x2;

/// Configuration bitmask for swapchain creation.
#[derive(Debug, Clone, Copy, PartialEq, Eq, Hash, Structural)]
pub struct SwapChainFlags {
    pub bits: u64,
}

impl SwapChainFlags {
    pub fn empty() -> (r: Self)
        ensures
            r.bits == 0,
    {
        SwapChainFlags { bits: 0 }
    }

    pub fn from_bits(bits: u64) -> (r: Self)
        ensures
            r.bits == bits,
    {
        SwapChainFlags { bits }
    }
}

/// What the native side keeps about a swapchain.
#[derive(Debug, Clone, Copy, PartialEq, Eq, Structural)]
pub struct SwapState {
    /// The opaque platform window handle, 0 for a headless swapchain.
    pub window: u64,
    pub width: u32,
    pub height: u32,
    pub flags: u64,
    pub headless: bool,
}

/// The swapchain state recorded in slot `raw`.
pub open spec fn swapchain_state(n: Native, raw: u64) -> SwapState {
    n.slots.data@[raw as int]->SwapChainD_sc
}

/// A reference-counted handle to one native swapchain; it keeps its own
/// clone of the engine handle.
#[derive(Debug, PartialEq, Eq, Hash, Structural)]
pub struct SwapChain {
    pub raw: u64,
    pub engine: u64,
}

impl SwapChain {
    pub open spec fn wf(self, n: Native) -> bool {
        &&& n.slots.live(self.raw)
        &&& n.slots.data@[self.raw as int] is SwapChainD
        &&& n.slots.live(self.engine)
        &&& n.slots.data@[self.engine as int] is EngineD
    }

    /// The identifiers are in range and distinct; all a release needs.
    pub open spec fn ids_ok(self, n: Native) -> bool {
        &&& 0 < self.raw < n.slots.slot_count()
        &&& 0 < self.engine < n.slots.slot_count()
        &&& self.raw != self.engine
    }

    /// Asks the engine for a swapchain on the platform surface
    /// `raw_window_handle`, passed through unmodified.  Fails exactly when
    /// the native factory returns null, in which case nothing was created.
    pub fn new(native: &mut Native, engine: &Engine, raw_window_handle: u64, flags: SwapChainFlags)
        -> (r: Result<SwapChain, EngineError>)
        requires
            old(native).wf(),
            engine.wf(*old(native)),
            old(native).slots.slot_count() < u64::MAX,
            old(native).slots.rc@[engine.raw as int] < u64::MAX,
        ensures
            final(native).wf(),
            same_tables(*old(native), *final(native)),
            old(native).fail_creation ==> (r matches Err(EngineError::CreationFailed))
                && same_slots(*old(native), *final(native)),
            !old(native).fail_creation ==> (r matches Ok(s) && {
                &&& s.raw == old(native).slots.slot_count()
                &&& s.engine == engine.raw
                &&& s.wf(*final(native))
                &&& final(native).slots.rc@ == rc_after_retain(
                    old(native).slots.rc@.push(1u64), engine.raw as int)
                &&& final(native).slots.destroys@ == old(native).slots.destroys@.push(0u64)
                &&& final(native).slots.data@ == old(native).slots.data@.push(
                    ResourceData::SwapChainD { sc: SwapState {
                        window: raw_window_handle,
                        width: 0,
                        height: 0,
                        flags: flags.bits,
                        headless: false,
                    } })
                &&& swapchain_state(*final(native), s.raw).window == raw_window_handle
                &&& swapchain_state(*final(native), s.raw).flags == flags.bits
            }),
    {
        let raw = native.create_dependent_slot(
            ResourceData::SwapChainD { sc: SwapState {
                window: raw_window_handle,
                width: 0,
                height: 0,
                flags: flags.bits,
                headless: false,
            } },
            engine.raw,
        );
        if raw == 0 {
            Err(EngineError::CreationFailed)
        } else {
            Ok(SwapChain { raw, engine: engine.raw })
        }
    }

    /// Asks the engine for a headless swapchain of the given size.  Fails
    /// exactly when the native factory returns null.
    pub fn new_headless(native: &mut Native, engine: &Engine, width: u32, height: u32, flags: SwapChainFlags)
        -> (r: Result<SwapChain, EngineError>)
        requires
            old(native).wf(),
            engine.wf(*old(native)),
            old(native).slots.slot_count() < u64::MAX,
            old(native).slots.rc@[engine.raw as int] < u64::MAX,
        ensures
            final(native).wf(),
            same_tables(*old(native), *final(native)),
            old(native).fail_creation ==> (r matches Err(EngineError::CreationFailed))
                && same_slots(*old(native), *final(native)),
            !old(native).fail_creation ==> (r matches Ok(s) && {
                &&& s.raw == old(native).slots.slot_count()
                &&& s.engine == engine.raw
                &&& s.wf(*final(native))
                &&& final(native).slots.rc@ == rc_after_retain(
                    old(native).slots.rc@.push(1u64), engine.raw as int)
                &&& final(native).slots.destroys@ == old(native).slots.destroys@.push(0u64)
                &&& final(native).slots.data@ == old(native).slots.data@.push(
                    ResourceData::SwapChainD { sc: SwapState {
                        window: 0,
                        width,
                        height,
                        flags: flags.bits,
                        headless: true,
                    } })
                &&& swapchain_state(*final(native), s.raw).width == width
                &&& swapchain_state(*final(native), s.raw).height == height
                &&& swapchain_state(*final(native), s.raw).headless
            }),
    {
        let raw = native.create_dependent_slot(
            ResourceData::SwapChainD { sc: SwapState {
                window: 0,
                width,
                height,
                flags: flags.bits,
                headless: true,
            } },
            engine.raw,
        );
        if raw == 0 {
            Err(EngineError::CreationFailed)
        } else {
            Ok(SwapChain { raw, engine: engine.raw })
        }
    }

    /// The platform window handle the swapchain was created on; 0 for a
    /// headless swapchain.
    pub fn raw_handle(&self, native: &Native) -> (r: u64)
        requires
            native.wf(),
            self.wf(*native),
        ensures
            r == swapchain_state(*native, self.raw).window,
    {
        let n = native.slots.data.len();
        assert(self.raw < n);
        match native.slots.data[self.raw as usize] {
            ResourceData::SwapChainD { sc } => sc.window,
            _ => {
                proof {
                    assert(false);
                }
                0
            }
        }
    }

    /// Clones the handle: one more owner of the swapchain, and one more
    /// owner of the engine for the clone's own engine reference.
    pub fn clone_handle(&self, native: &mut Native) -> (c: SwapChain)
        requires
            old(native).wf(),
            self.wf(*old(native)),
            old(native).slots.rc@[self.raw as int] < u64::MAX,
            old(native).slots.rc@[self.engine as int] < u64::MAX,
        ensures
            final(native).wf(),
            same_tables(*old(native), *final(native)),
            c.raw == self.raw,
            c.engine == self.engine,
            c.wf(*final(native)),
            final(native).slots.rc@ == rc_after_handle_clone(
                old(native).slots.rc@, self.raw as int, self.engine as int),
            final(native).slots.destroys@ == old(native).slots.destroys@,
            final(native).slots.data@ == old(native).slots.data@,
    {
        proof {
            assert(self.raw != self.engine);
        }
        native.retain_pair(self.raw, self.engine);
        SwapChain { raw: self.raw, engine: self.engine }
    }

    /// Releases the handle: the swapchain is destroyed exactly when this
    /// was its last owner, and the engine clone the handle kept is released
    /// afterwards.
    pub fn release(self, native: &mut Native)
        requires
            old(native).wf(),
            self.ids_ok(*old(native)),
        ensures
            final(native).wf(),
            same_tables(*old(native), *final(native)),
            final(native).slots.rc@ == rc_after_handle_release(
                old(native).slots.rc@, self.raw as int, self.engine as int),
            final(native).slots.destroys@ == destroys_after_handle_release(
                old(native).slots.rc@, old(native).slots.destroys@,
                self.raw as int, self.engine as int),
            final(native).slots.data@ == old(native).slots.data@,
            old(native).slots.rc@[self.raw as int] == 1
                ==> final(native).slots.destroys@[self.raw as int]
                    == old(native).slots.destroys@[self.raw as int] + 1,
            old(native).slots.rc@[self.raw as int] != 1
                ==> final(native).slots.destroys@[self.raw as int]
                    == old(native).slots.destroys@[self.raw as int],
    {
        native.release_pair(self.raw, self.engine);
    }
}

} // verus!
