//! Cameras: projection owners bound to an entity.

use vstd::prelude::*;
use crate::Engine;
use crate::EngineError;
use crate::Entity;
use crate::native::Native;
use crate::native::ResourceData;
use crate::native::rc_after_handle_clone;
use crate::native::rc_after_handle_release;
use crate::native::rc_after_retain;
use crate::native::destroys_after_handle_release;
use crate::native::same_slots;
use crate::native::same_tables;
use crate::native::same_entities;
use crate::native::same_scenes;
use crate::native::same_transforms;
use crate::native::same_names;
use crate::native::same_bindings;
use crate::native::same_heap;
use crate::transform::find_transform_row;
use crate::transform::identity_bits;
use crate::transform::identity_transform_bits;

verus! {

/// Projection kind of a camera.
#[allow(non_camel_case_types)]
#[derive(Debug, Clone, Copy, PartialEq, Eq, Hash, Structural)]
pub enum Projection {
    PERSPECTIVE,
    ORTHOGRAPHIC,
}

/// Which axis a field-of-view angle is measured along.
#[allow(non_camel_case_types)]
#[derive(Debug, Clone, Copy, PartialEq, Eq, Hash, Structural)]
pub enum FovDirection {
    VERTICAL,
    HORIZONTAL,
}

impl Default for FovDirection {
    fn default() -> (r: Self)
        ensures
            r == FovDirection::VERTICAL,
    {
        FovDirection::VERTICAL
    }
}

/// The projection a camera was last configured with.  Scalar parameters
/// cross the native boundary as the bit patterns of their values, held
/// here as plain `u64` words.
#[derive(Debug, Clone, Copy, PartialEq, Eq, Structural)]
pub enum CamProjection {
    /// No projection has been set since creation.
    Unset,
    /// An explicit frustum: `set_projection`'s six planes.
    Frustum {
        kind: Projection,
        left: u64,
        right: u64,
        bottom: u64,
        top: u64,
        near: u64,
        far: u64,
    },
    /// A field-of-view projection: `set_projection_fov`'s parameters.
    Fov {
        fov: u64,
        aspect: u64,
        fov_near: u64,
        fov_far: u64,
        direction: FovDirection,
    },
}

/// What the native side keeps about a camera.
#[derive(Debug, Clone, Copy, PartialEq, Eq, Structural)]
pub struct CamState {
    /// Identity of the entity the camera component was created on; 0 for a
    /// camera not bound to an entity.
    pub entity: u32,
    pub projection: CamProjection,
}

/// The camera state recorded in slot `raw`.
pub open spec fn camera_state(n: Native, raw: u64) -> CamState {
    n.slots.data@[raw as int]->CameraD_cam
}

/// A reference-counted handle to one native camera; it keeps its own clone
/// of the engine handle.
#[derive(Debug, PartialEq, Eq, Hash, Structural)]
pub struct Camera {
    pub raw: u64,
    pub engine: u64,
}

impl Camera {
    pub open spec fn wf(self, n: Native) -> bool {
        &&& n.slots.live(self.raw)
        &&& n.slots.data@[self.raw as int] is CameraD
        &&& n.slots.live(self.engine)
        &&& n.slots.data@[self.engine as int] is EngineD
    }

    /// The identifiers are in range and distinct; all a release needs.
    pub open spec fn ids_ok(self, n: Native) -> bool {
        &&& 0 < self.raw < n.slots.slot_count()
        &&& 0 < self.engine < n.slots.slot_count()
        &&& self.raw != self.engine
    }

    /// Asks the engine for a camera component on `entity`.  On success the
    /// entity also receives a transform component holding the identity
    /// matrix, unless it already has one.  Fails exactly when the native
    /// factory returns null, in which case nothing was created.
    pub fn new(native: &mut Native, engine: &Engine, entity: Entity) -> (r: Result<Camera, EngineError>)
        requires
            old(native).wf(),
            engine.wf(*old(native)),
            old(native).slots.slot_count() < u64::MAX,
            old(native).slots.rc@[engine.raw as int] < u64::MAX,
            old(native).transforms.rows@.len() < u32::MAX - 1,
        ensures
            final(native).wf(),
            final(native).fail_creation == old(native).fail_creation,
            same_entities(*old(native), *final(native)),
            same_scenes(*old(native), *final(native)),
            same_names(*old(native), *final(native)),
            same_bindings(*old(native), *final(native)),
            same_heap(*old(native), *final(native)),
            old(native).fail_creation ==> (r matches Err(EngineError::CreationFailed))
                && same_slots(*old(native), *final(native))
                && same_transforms(*old(native), *final(native)),
            !old(native).fail_creation ==> (r matches Ok(c) && {
                &&& c.raw == old(native).slots.slot_count()
                &&& c.engine == engine.raw
                &&& c.wf(*final(native))
                &&& final(native).slots.rc@ == rc_after_retain(
                    old(native).slots.rc@.push(1u64), engine.raw as int)
                &&& final(native).slots.destroys@ == old(native).slots.destroys@.push(0u64)
                &&& final(native).slots.data@ == old(native).slots.data@.push(
                    ResourceData::CameraD { cam: CamState { entity: entity.id, projection: CamProjection::Unset } })
                &&& camera_state(*final(native), c.raw).entity == entity.id
                &&& old(native).transforms.has_entity(entity.id)
                    ==> same_transforms(*old(native), *final(native))
                &&& !old(native).transforms.has_entity(entity.id) ==> ({
                    &&& final(native).transforms.rows@.len()
                        == old(native).transforms.rows@.len() + 1
                    &&& forall|j: int| 0 <= j < old(native).transforms.rows@.len()
                        ==> #[trigger] final(native).transforms.rows@[j]
                            == old(native).transforms.rows@[j]
                    &&& final(native).transforms.rows@.last().0 == entity.id
                    &&& final(native).transforms.rows@.last().1@ == identity_bits()
                })
                &&& final(native).transforms.has_entity(entity.id)
            }),
    {
        let raw = native.create_dependent_slot(
            ResourceData::CameraD { cam: CamState { entity: entity.id, projection: CamProjection::Unset } },
            engine.raw,
        );
        if raw == 0 {
            return Err(EngineError::CreationFailed);
        }
        match find_transform_row(&native.transforms, entity.id) {
            Some(k) => {
                proof {
                    assert(native.transforms.rows@[k as int].0 == entity.id);
                }
            }
            None => {
                let m = identity_transform_bits();
                native.transforms.rows.push((entity.id, m));
                proof {
                    let rows = native.transforms.rows@;
                    assert(rows[rows.len() - 1].0 == entity.id);
                }
            }
        }
        Ok(Camera { raw, engine: engine.raw })
    }

    /// Asks the engine for a camera bound to no entity.  Fails exactly when
    /// the native factory returns null, in which case nothing was created.
    pub fn new_orphan(native: &mut Native, engine: &Engine) -> (r: Result<Camera, EngineError>)
        requires
            old(native).wf(),
            engine.wf(*old(native)),
            old(native).slots.slot_count() < u64::MAX,
            old(native).slots.rc@[engine.raw as int] < u64::MAX,
        ensures
            final(native).wf(),
            same_tables(*old(native), *final(native)),
            old(native).fail_creation ==> (r matches Err(EngineError::CreationFailed))
                && same_slots(*old(native), *final(native)),
            !old(native).fail_creation ==> (r matches Ok(c) && {
                &&& c.raw == old(native).slots.slot_count()
                &&& c.engine == engine.raw
                &&& c.wf(*final(native))
                &&& final(native).slots.rc@ == rc_after_retain(
                    old(native).slots.rc@.push(1u64), engine.raw as int)
                &&& final(native).slots.destroys@ == old(native).slots.destroys@.push(0u64)
                &&& final(native).slots.data@ == old(native).slots.data@.push(
                    ResourceData::CameraD { cam: CamState { entity: 0, projection: CamProjection::Unset } })
                &&& camera_state(*final(native), c.raw).entity == 0
            }),
    {
        let raw = native.create_dependent_slot(
            ResourceData::CameraD { cam: CamState { entity: 0, projection: CamProjection::Unset } },
            engine.raw,
        );
        if raw == 0 {
            Err(EngineError::CreationFailed)
        } else {
            Ok(Camera { raw, engine: engine.raw })
        }
    }

    /// Reads the recorded camera state.
    fn state(&self, native: &Native) -> (r: CamState)
        requires
            native.wf(),
            self.wf(*native),
        ensures
            r == camera_state(*native, self.raw),
    {
        let n = native.slots.data.len();
        assert(self.raw < n);
        match native.slots.data[self.raw as usize] {
            ResourceData::CameraD { cam } => cam,
            _ => {
                proof {
                    assert(false);
                }
                CamState { entity: 0, projection: CamProjection::Unset }
            }
        }
    }

    /// Records an explicit frustum projection, handed to the native side as
    /// the bit patterns of its six plane values.
    pub fn set_projection(
        &self,
        native: &mut Native,
        projection: Projection,
        left: u64,
        right: u64,
        bottom: u64,
        top: u64,
        near: u64,
        far: u64,
    )
        requires
            old(native).wf(),
            self.wf(*old(native)),
        ensures
            final(native).wf(),
            same_tables(*old(native), *final(native)),
            final(native).slots.rc@ == old(native).slots.rc@,
            final(native).slots.destroys@ == old(native).slots.destroys@,
            final(native).slots.data@ == old(native).slots.data@.update(
                self.raw as int,
                ResourceData::CameraD { cam: CamState {
                    entity: camera_state(*old(native), self.raw).entity,
                    projection: CamProjection::Frustum {
                        kind: projection, left, right, bottom, top, near, far,
                    },
                } }),
            camera_state(*final(native), self.raw).projection == (CamProjection::Frustum {
                kind: projection, left, right, bottom, top, near, far,
            }),
    {
        let cam = self.state(native);
        let n = native.slots.data.len();
        assert(self.raw < n);
        native.slots.data[self.raw as usize] = ResourceData::CameraD { cam: CamState {
            entity: cam.entity,
            projection: CamProjection::Frustum {
                kind: projection, left, right, bottom, top, near, far,
            },
        } };
    }

    /// Records a field-of-view projection, handed to the native side as the
    /// bit patterns of its scalar parameters.
    pub fn set_projection_fov(
        &self,
        native: &mut Native,
        fov: u64,
        aspect: u64,
        near: u64,
        far: u64,
        direction: FovDirection,
    )
        requires
            old(native).wf(),
            self.wf(*old(native)),
        ensures
            final(native).wf(),
            same_tables(*old(native), *final(native)),
            final(native).slots.rc@ == old(native).slots.rc@,
            final(native).slots.destroys@ == old(native).slots.destroys@,
            final(native).slots.data@ == old(native).slots.data@.update(
                self.raw as int,
                ResourceData::CameraD { cam: CamState {
                    entity: camera_state(*old(native), self.raw).entity,
                    projection: CamProjection::Fov {
                        fov, aspect, fov_near: near, fov_far: far, direction,
                    },
                } }),
            camera_state(*final(native), self.raw).projection == (CamProjection::Fov {
                fov, aspect, fov_near: near, fov_far: far, direction,
            }),
    {
        let cam = self.state(native);
        let n = native.slots.data.len();
        assert(self.raw < n);
        native.slots.data[self.raw as usize] = ResourceData::CameraD { cam: CamState {
            entity: cam.entity,
            projection: CamProjection::Fov {
                fov, aspect, fov_near: near, fov_far: far, direction,
            },
        } };
    }

    /// Clones the handle: one more owner of the camera, and one more owner
    /// of the engine for the clone's own engine reference.
    pub fn clone_handle(&self, native: &mut Native) -> (c: Camera)
        requires
            old(native).wf(),
            self.wf(*old(native)),
            old(native).slots.rc@[self.raw as int] < u64::MAX,
            old(native).slots.rc@[self.engine as int] < u64::MAX,
        ensures
            final(native).wf(),
            same_tables(*old(native), *final(native)),
            c.raw == self.raw,
            c.engine == self.engine,
            c.wf(*final(native)),
            final(native).slots.rc@ == rc_after_handle_clone(
                old(native).slots.rc@, self.raw as int, self.engine as int),
            final(native).slots.destroys@ == old(native).slots.destroys@,
            final(native).slots.data@ == old(native).slots.data@,
    {
        proof {
            assert(self.raw != self.engine);
        }
        native.retain_pair(self.raw, self.engine);
        Camera { raw: self.raw, engine: self.engine }
    }

    /// Releases the handle: the camera is destroyed exactly when this was
    /// its last owner, and the engine clone the handle kept is released
    /// afterwards.
    pub fn release(self, native: &mut Native)
        requires
            old(native).wf(),
            self.ids_ok(*old(native)),
        ensures
            final(native).wf(),
            same_tables(*old(native), *final(native)),
            final(native).slots.rc@ == rc_after_handle_release(
                old(native).slots.rc@, self.raw as int, self.engine as int),
            final(native).slots.destroys@ == destroys_after_handle_release(
                old(native).slots.rc@, old(native).slots.destroys@,
                self.raw as int, self.engine as int),
            final(native).slots.data@ == old(native).slots.data@,
            old(native).slots.rc@[self.raw as int] == 1
                ==> final(native).slots.destroys@[self.raw as int]
                    == old(native).slots.destroys@[self.raw as int] + 1,
            old(native).slots.rc@[self.raw as int] != 1
                ==> final(native).slots.destroys@[self.raw as int]
                    == old(native).slots.destroys@[self.raw as int],
    {
        native.release_pair(self.raw, self.engine);
    }
}

} // verus!
