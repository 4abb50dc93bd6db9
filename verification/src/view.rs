//! Render views: the pairing of a scene and a camera with the rectangle
//! and post-processing options to draw them with.

use vstd::prelude::*;
use crate::Engine;
use crate::EngineError;
use crate::Viewport;
use crate::camera::Camera;
use crate::native::NameTable;
use crate::native::Native;
use crate::native::ResourceData;
use crate::native::rc_after_handle_clone;
use crate::native::rc_after_handle_release;
use crate::native::rc_after_retain;
use crate::native::destroys_after_handle_release;
use crate::native::same_slots;
use crate::native::same_tables;
use crate::native::same_entities;
use crate::native::same_scenes;
use crate::native::same_transforms;
use crate::native::same_bindings;
use crate::native::same_heap;
use crate::scene::Scene;

verus! {

/// Ambient-occlusion mode of a view.
#[allow(non_camel_case_types)]
#[derive(Debug, Clone, Copy, PartialEq, Eq, Hash, Structural)]
pub enum AmbientOcclusion {
    NONE,
    SSAO,
}

/// Anti-aliasing mode of a view.
#[allow(non_camel_case_types)]
#[derive(Debug, Clone, Copy, PartialEq, Eq, Hash, Structural)]
pub enum AntiAliasing {
    NONE,
    FXAA,
}

/// Dithering mode of a view.
#[allow(non_camel_case_types)]
#[derive(Debug, Clone, Copy, PartialEq, Eq, Hash, Structural)]
pub enum Dithering {
    NONE,
    TEMPORAL,
}

/// Tone-mapping operator of a view.
#[allow(non_camel_case_types)]
#[derive(Debug, Clone, Copy, PartialEq, Eq, Hash, Structural)]
pub enum ToneMapping {
    LINEAR,
    AC,
}

/// What the native side keeps about a view.
#[derive(Debug, Clone, Copy, PartialEq, Eq, Structural)]
pub struct ViewState {
    /// Raw handle of the scene drawn by this view; 0 while none is set.
    pub scene: u64,
    /// Raw handle of the camera this view looks through; 0 while none is set.
    pub camera: u64,
    pub viewport: Option<Viewport>,
    pub ambient_occlusion: AmbientOcclusion,
    pub antialiasing: AntiAliasing,
    pub dithering: Dithering,
    pub tone_mapping: ToneMapping,
}

/// The view state recorded in slot `raw`.
pub open spec fn view_state(n: Native, raw: u64) -> ViewState {
    n.slots.data@[raw as int]->ViewD_v
}

/// The state a freshly created view starts from: no scene, no camera, no
/// viewport, every post-processing option off.
pub open spec fn initial_view_state() -> ViewState {
    ViewState {
        scene: 0,
        camera: 0,
        viewport: None,
        ambient_occlusion: AmbientOcclusion::NONE,
        antialiasing: AntiAliasing::NONE,
        dithering: Dithering::NONE,
        tone_mapping: ToneMapping::LINEAR,
    }
}

/// Some view with raw handle `raw` has a recorded debug name.
pub open spec fn has_name(rows: Seq<(u64, String)>, raw: u64) -> bool {
    exists|i: int| 0 <= i < rows.len() && (#[trigger] rows[i]).0 == raw
}

/// Looks up the name row of the view with raw handle `raw`.
fn find_name_row(t: &NameTable, raw: u64) -> (r: Option<usize>)
    ensures
        r matches Some(k) ==> 0 <= k < t.rows@.len() && t.rows@[k as int].0 == raw,
        r is None ==> !has_name(t.rows@, raw),
{
    let len = t.rows.len();
    let mut i: usize = 0;
    while i < len
        invariant
            i <= len,
            len == t.rows@.len(),
            forall|j: int| 0 <= j < i ==> (#[trigger] t.rows@[j]).0 != raw,
        decreases len - i,
    {
        if t.rows[i].0 == raw {
            return Some(i);
        }
        i = i + 1;
    }
    None
}

/// Replaces the recorded state of the view slot `raw`.
fn set_view_state(native: &mut Native, raw: u64, v: ViewState)
    requires
        old(native).wf(),
        old(native).slots.live(raw),
        old(native).slots.data@[raw as int] is ViewD,
    ensures
        final(native).wf(),
        same_tables(*old(native), *final(native)),
        final(native).slots.rc@ == old(native).slots.rc@,
        final(native).slots.destroys@ == old(native).slots.destroys@,
        final(native).slots.data@ == old(native).slots.data@.update(
            raw as int, ResourceData::ViewD { v }),
{
    let n = native.slots.data.len();
    assert(raw < n);
    native.slots.data[raw as usize] = ResourceData::ViewD { v };
}

/// Reads the recorded state of the view slot `raw`.
fn get_view_state(native: &Native, raw: u64) -> (r: ViewState)
    requires
        native.wf(),
        native.slots.live(raw),
        native.slots.data@[raw as int] is ViewD,
    ensures
        r == view_state(*native, raw),
{
    let n = native.slots.data.len();
    assert(raw < n);
    match native.slots.data[raw as usize] {
        ResourceData::ViewD { v } => v,
        _ => {
            proof {
                assert(false);
            }
            ViewState {
                scene: 0,
                camera: 0,
                viewport: None,
                ambient_occlusion: AmbientOcclusion::NONE,
                antialiasing: AntiAliasing::NONE,
                dithering: Dithering::NONE,
                tone_mapping: ToneMapping::LINEAR,
            }
        }
    }
}

/// A reference-counted handle to one native view; it keeps its own clone
/// of the engine handle.
#[derive(Debug, PartialEq, Eq, Hash, Structural)]
pub struct RenderView {
    pub raw: u64,
    pub engine: u64,
}

impl RenderView {
    pub open spec fn wf(self, n: Native) -> bool {
        &&& n.slots.live(self.raw)
        &&& n.slots.data@[self.raw as int] is ViewD
        &&& n.slots.live(self.engine)
        &&& n.slots.data@[self.engine as int] is EngineD
    }

    /// The identifiers are in range and distinct; all a release needs.
    pub open spec fn ids_ok(self, n: Native) -> bool {
        &&& 0 < self.raw < n.slots.slot_count()
        &&& 0 < self.engine < n.slots.slot_count()
        &&& self.raw != self.engine
    }

    /// Asks the engine for a new view, with nothing set yet.  Fails exactly
    /// when the native factory returns null, in which case nothing was
    /// created.
    pub fn new(native: &mut Native, engine: &Engine) -> (r: Result<RenderView, EngineError>)
        requires
            old(native).wf(),
            engine.wf(*old(native)),
            old(native).slots.slot_count() < u64::MAX,
            old(native).slots.rc@[engine.raw as int] < u64::MAX,
        ensures
            final(native).wf(),
            same_tables(*old(native), *final(native)),
            old(native).fail_creation ==> (r matches Err(EngineError::CreationFailed))
                && same_slots(*old(native), *final(native)),
            !old(native).fail_creation ==> (r matches Ok(v) && {
                &&& v.raw == old(native).slots.slot_count()
                &&& v.engine == engine.raw
                &&& v.wf(*final(native))
                &&& final(native).slots.rc@ == rc_after_retain(
                    old(native).slots.rc@.push(1u64), engine.raw as int)
                &&& final(native).slots.destroys@ == old(native).slots.destroys@.push(0u64)
                &&& final(native).slots.data@ == old(native).slots.data@.push(
                    ResourceData::ViewD { v: initial_view_state() })
                &&& view_state(*final(native), v.raw) == initial_view_state()
            }),
    {
        let v = ViewState {
            scene: 0,
            camera: 0,
            viewport: None,
            ambient_occlusion: AmbientOcclusion::NONE,
            antialiasing: AntiAliasing::NONE,
            dithering: Dithering::NONE,
            tone_mapping: ToneMapping::LINEAR,
        };
        let raw = native.create_dependent_slot(ResourceData::ViewD { v }, engine.raw);
        if raw == 0 {
            Err(EngineError::CreationFailed)
        } else {
            Ok(RenderView { raw, engine: engine.raw })
        }
    }

    /// Points the view at `scene`.
    pub fn set_scene(&self, native: &mut Native, scene: &Scene)
        requires
            old(native).wf(),
            self.wf(*old(native)),
            scene.wf(*old(native)),
        ensures
            final(native).wf(),
            same_tables(*old(native), *final(native)),
            final(native).slots.rc@ == old(native).slots.rc@,
            final(native).slots.destroys@ == old(native).slots.destroys@,
            final(native).slots.data@ == old(native).slots.data@.update(
                self.raw as int,
                ResourceData::ViewD { v: ViewState {
                    scene: scene.raw,
                    ..view_state(*old(native), self.raw)
                } }),
            view_state(*final(native), self.raw).scene == scene.raw,
    {
        let v = get_view_state(native, self.raw);
        set_view_state(native, self.raw, ViewState { scene: scene.raw, ..v });
    }

    /// Points the view through `camera`.
    pub fn set_camera(&self, native: &mut Native, camera: &Camera)
        requires
            old(native).wf(),
            self.wf(*old(native)),
            camera.wf(*old(native)),
        ensures
            final(native).wf(),
            same_tables(*old(native), *final(native)),
            final(native).slots.rc@ == old(native).slots.rc@,
            final(native).slots.destroys@ == old(native).slots.destroys@,
            final(native).slots.data@ == old(native).slots.data@.update(
                self.raw as int,
                ResourceData::ViewD { v: ViewState {
                    camera: camera.raw,
                    ..view_state(*old(native), self.raw)
                } }),
            view_state(*final(native), self.raw).camera == camera.raw,
    {
        let v = get_view_state(native, self.raw);
        set_view_state(native, self.raw, ViewState { camera: camera.raw, ..v });
    }

    /// Sets the rectangle the view draws into.
    pub fn set_viewport(&self, native: &mut Native, viewport: Viewport)
        requires
            old(native).wf(),
            self.wf(*old(native)),
        ensures
            final(native).wf(),
            same_tables(*old(native), *final(native)),
            final(native).slots.rc@ == old(native).slots.rc@,
            final(native).slots.destroys@ == old(native).slots.destroys@,
            view_state(*final(native), self.raw).viewport == Some(viewport),
            final(native).slots.data@ == old(native).slots.data@.update(
                self.raw as int,
                ResourceData::ViewD { v: ViewState {
                    viewport: Some(viewport),
                    ..view_state(*old(native), self.raw)
                } }),
    {
        let v = get_view_state(native, self.raw);
        set_view_state(native, self.raw, ViewState { viewport: Some(viewport), ..v });
    }

    /// Sets the ambient-occlusion mode.
    pub fn set_ambient_occlusion(&self, native: &mut Native, ao: AmbientOcclusion)
        requires
            old(native).wf(),
            self.wf(*old(native)),
        ensures
            final(native).wf(),
            same_tables(*old(native), *final(native)),
            final(native).slots.rc@ == old(native).slots.rc@,
            final(native).slots.destroys@ == old(native).slots.destroys@,
            view_state(*final(native), self.raw).ambient_occlusion == ao,
            final(native).slots.data@ == old(native).slots.data@.update(
                self.raw as int,
                ResourceData::ViewD { v: ViewState {
                    ambient_occlusion: ao,
                    ..view_state(*old(native), self.raw)
                } }),
    {
        let v = get_view_state(native, self.raw);
        set_view_state(native, self.raw, ViewState { ambient_occlusion: ao, ..v });
    }

    /// The ambient-occlusion mode last set, `NONE` to begin with.
    pub fn ambient_occlusion(&self, native: &Native) -> (r: AmbientOcclusion)
        requires
            native.wf(),
            self.wf(*native),
        ensures
            r == view_state(*native, self.raw).ambient_occlusion,
    {
        get_view_state(native, self.raw).ambient_occlusion
    }

    /// Sets the anti-aliasing mode.
    pub fn set_antialiasing(&self, native: &mut Native, aa: AntiAliasing)
        requires
            old(native).wf(),
            self.wf(*old(native)),
        ensures
            final(native).wf(),
            same_tables(*old(native), *final(native)),
            final(native).slots.rc@ == old(native).slots.rc@,
            final(native).slots.destroys@ == old(native).slots.destroys@,
            view_state(*final(native), self.raw).antialiasing == aa,
            final(native).slots.data@ == old(native).slots.data@.update(
                self.raw as int,
                ResourceData::ViewD { v: ViewState {
                    antialiasing: aa,
                    ..view_state(*old(native), self.raw)
                } }),
    {
        let v = get_view_state(native, self.raw);
        set_view_state(native, self.raw, ViewState { antialiasing: aa, ..v });
    }

    /// The anti-aliasing mode last set, `NONE` to begin with.
    pub fn antialiasing(&self, native: &Native) -> (r: AntiAliasing)
        requires
            native.wf(),
            self.wf(*native),
        ensures
            r == view_state(*native, self.raw).antialiasing,
    {
        get_view_state(native, self.raw).antialiasing
    }

    /// Sets the dithering mode.
    pub fn set_dithering(&self, native: &mut Native, dithering: Dithering)
        requires
            old(native).wf(),
            self.wf(*old(native)),
        ensures
            final(native).wf(),
            same_tables(*old(native), *final(native)),
            final(native).slots.rc@ == old(native).slots.rc@,
            final(native).slots.destroys@ == old(native).slots.destroys@,
            view_state(*final(native), self.raw).dithering == dithering,
            final(native).slots.data@ == old(native).slots.data@.update(
                self.raw as int,
                ResourceData::ViewD { v: ViewState {
                    dithering,
                    ..view_state(*old(native), self.raw)
                } }),
    {
        let v = get_view_state(native, self.raw);
        set_view_state(native, self.raw, ViewState { dithering, ..v });
    }

    /// The dithering mode last set, `NONE` to begin with.
    pub fn dithering(&self, native: &Native) -> (r: Dithering)
        requires
            native.wf(),
            self.wf(*native),
        ensures
            r == view_state(*native, self.raw).dithering,
    {
        get_view_state(native, self.raw).dithering
    }

    /// Sets the tone-mapping operator.
    pub fn set_tone_mapping(&self, native: &mut Native, tone_mapping: ToneMapping)
        requires
            old(native).wf(),
            self.wf(*old(native)),
        ensures
            final(native).wf(),
            same_tables(*old(native), *final(native)),
            final(native).slots.rc@ == old(native).slots.rc@,
            final(native).slots.destroys@ == old(native).slots.destroys@,
            view_state(*final(native), self.raw).tone_mapping == tone_mapping,
            final(native).slots.data@ == old(native).slots.data@.update(
                self.raw as int,
                ResourceData::ViewD { v: ViewState {
                    tone_mapping,
                    ..view_state(*old(native), self.raw)
                } }),
    {
        let v = get_view_state(native, self.raw);
        set_view_state(native, self.raw, ViewState { tone_mapping, ..v });
    }

    /// The tone-mapping operator last set, `LINEAR` to begin with.
    pub fn tone_mapping(&self, native: &Native) -> (r: ToneMapping)
        requires
            native.wf(),
            self.wf(*native),
        ensures
            r == view_state(*native, self.raw).tone_mapping,
    {
        get_view_state(native, self.raw).tone_mapping
    }

    /// Records a debug name for the view, replacing any earlier one.
    pub fn set_name(&self, native: &mut Native, name: String)
        requires
            old(native).wf(),
            self.wf(*old(native)),
        ensures
            final(native).wf(),
            same_slots(*old(native), *final(native)),
            same_entities(*old(native), *final(native)),
            same_scenes(*old(native), *final(native)),
            same_transforms(*old(native), *final(native)),
            same_bindings(*old(native), *final(native)),
            same_heap(*old(native), *final(native)),
            final(native).fail_creation == old(native).fail_creation,
            !has_name(old(native).names.rows@, self.raw)
                ==> final(native).names.rows@
                    == old(native).names.rows@.push((self.raw, name)),
            has_name(old(native).names.rows@, self.raw)
                ==> exists|k: int| 0 <= k < old(native).names.rows@.len()
                    && old(native).names.rows@[k].0 == self.raw
                    && final(native).names.rows@
                        == old(native).names.rows@.update(k, (self.raw, name)),
            has_name(final(native).names.rows@, self.raw),
    {
        match find_name_row(&native.names, self.raw) {
            Some(k) => {
                native.names.rows[k] = (self.raw, name);
                proof {
                    let rows = native.names.rows@;
                    assert(rows[k as int].0 == self.raw);
                    assert forall|i: int, j: int|
                        0 <= i < j < rows.len()
                        implies (#[trigger] rows[i]).0 != (#[trigger] rows[j]).0 by {
                        assert(rows[i].0 == old(native).names.rows@[i].0);
                        assert(rows[j].0 == old(native).names.rows@[j].0);
                    }
                }
            }
            None => {
                native.names.rows.push((self.raw, name));
                proof {
                    let rows = native.names.rows@;
                    assert(rows[rows.len() - 1].0 == self.raw);
                }
            }
        }
    }

    /// The debug name last recorded for the view; the empty string while
    /// none has been.
    pub fn name(&self, native: &Native) -> (r: String)
        requires
            native.wf(),
            self.wf(*native),
        ensures
            !has_name(native.names.rows@, self.raw) ==> r@ == Seq::<char>::empty(),
            has_name(native.names.rows@, self.raw)
                ==> exists|k: int| 0 <= k < native.names.rows@.len()
                    && native.names.rows@[k].0 == self.raw
                    && r@ == native.names.rows@[k].1@,
    {
        match find_name_row(&native.names, self.raw) {
            Some(k) => {
                let row = &native.names.rows[k];
                row.1.clone()
            }
            None => String::new(),
        }
    }

    /// Clones the handle: one more owner of the view, and one more owner of
    /// the engine for the clone's own engine reference.
    pub fn clone_handle(&self, native: &mut Native) -> (c: RenderView)
        requires
            old(native).wf(),
            self.wf(*old(native)),
            old(native).slots.rc@[self.raw as int] < u64::MAX,
            old(native).slots.rc@[self.engine as int] < u64::MAX,
        ensures
            final(native).wf(),
            same_tables(*old(native), *final(native)),
            c.raw == self.raw,
            c.engine == self.engine,
            c.wf(*final(native)),
            final(native).slots.rc@ == rc_after_handle_clone(
                old(native).slots.rc@, self.raw as int, self.engine as int),
            final(native).slots.destroys@ == old(native).slots.destroys@,
            final(native).slots.data@ == old(native).slots.data@,
    {
        proof {
            assert(self.raw != self.engine);
        }
        native.retain_pair(self.raw, self.engine);
        RenderView { raw: self.raw, engine: self.engine }
    }

    /// Releases the handle: the view is destroyed exactly when this was its
    /// last owner, and the engine clone the handle kept is released
    /// afterwards.
    pub fn release(self, native: &mut Native)
        requires
            old(native).wf(),
            self.ids_ok(*old(native)),
        ensures
            final(native).wf(),
            same_tables(*old(native), *final(native)),
            final(native).slots.rc@ == rc_after_handle_release(
                old(native).slots.rc@, self.raw as int, self.engine as int),
            final(native).slots.destroys@ == destroys_after_handle_release(
                old(native).slots.rc@, old(native).slots.destroys@,
                self.raw as int, self.engine as int),
            final(native).slots.data@ == old(native).slots.data@,
            old(native).slots.rc@[self.raw as int] == 1
                ==> final(native).slots.destroys@[self.raw as int]
                    == old(native).slots.destroys@[self.raw as int] + 1,
            old(native).slots.rc@[self.raw as int] != 1
                ==> final(native).slots.destroys@[self.raw as int]
                    == old(native).slots.destroys@[self.raw as int],
    {
        native.release_pair(self.raw, self.engine);
    }
}

} // verus!
