//! Materials: compiled shader packages and the parameter instances drawn
//! with them.

use vstd::prelude::*;
use crate::Engine;
use crate::EngineError;
use crate::native::Native;
use crate::native::ResourceData;
use crate::native::rc_after_handle_clone;
use crate::native::rc_after_handle_release;
use crate::native::rc_after_retain;
use crate::native::destroys_after_handle_release;
use crate::native::same_slots;
use crate::native::same_tables;
use crate::native::same_entities;
use crate::native::same_scenes;
use crate::native::same_transforms;
use crate::native::same_names;
use crate::native::same_heap;
use crate::texture::Texture;
use crate::texture::TextureSampler;

verus! {

/// What the native side keeps about a material.
#[derive(Debug, Clone, Copy, PartialEq, Eq, Hash, Structural)]
pub struct MatState {
    /// Raw handle of the material's built-in default instance, which lives
    /// and dies with the material itself.
    pub instance: u64,
}

/// The material state recorded in slot `raw`.
pub open spec fn material_state(n: Native, raw: u64) -> MatState {
    n.slots.data@[raw as int]->MaterialD_mat
}

/// One value a material-instance parameter can be set to.
pub enum MaterialParameter<'a> {
    Texture(&'a Texture, &'a TextureSampler),
}

/// A reference-counted handle to one native material; it keeps its own
/// clone of the engine handle.
#[derive(Debug, PartialEq, Eq, Hash, Structural)]
pub struct Material {
    pub raw: u64,
    pub engine: u64,
}

impl Material {
    pub open spec fn wf(self, n: Native) -> bool {
        &&& n.slots.live(self.raw)
        &&& n.slots.data@[self.raw as int] is MaterialD
        &&& n.slots.live(self.engine)
        &&& n.slots.data@[self.engine as int] is EngineD
        &&& n.slots.live(material_state(n, self.raw).instance)
        &&& n.slots.data@[material_state(n, self.raw).instance as int] is MaterialInstD
    }

    /// The identifiers are in range and distinct; all a release needs.
    pub open spec fn ids_ok(self, n: Native) -> bool {
        &&& 0 < self.raw < n.slots.slot_count()
        &&& 0 < self.engine < n.slots.slot_count()
        &&& self.raw != self.engine
    }

    /// Builds a material from a compiled package, consumed verbatim: this
    /// layer does not parse it.  On success the material's default instance
    /// exists alongside it.  Fails exactly when the native factory returns
    /// null, in which case nothing was created.
    pub fn new(native: &mut Native, engine: &Engine, package: &[u8]) -> (r: Result<Material, EngineError>)
        requires
            old(native).wf(),
            engine.wf(*old(native)),
            old(native).slots.slot_count() + 1 < u64::MAX,
            old(native).slots.rc@[engine.raw as int] < u64::MAX,
        ensures
            final(native).wf(),
            same_tables(*old(native), *final(native)),
            old(native).fail_creation ==> (r matches Err(EngineError::CreationFailed))
                && same_slots(*old(native), *final(native)),
            !old(native).fail_creation ==> (r matches Ok(m) && {
                &&& m.raw == old(native).slots.slot_count()
                &&& m.engine == engine.raw
                &&& m.wf(*final(native))
                &&& final(native).slots.rc@ == rc_after_retain(
                    old(native).slots.rc@.push(1u64).push(1u64), engine.raw as int)
                &&& final(native).slots.destroys@
                    == old(native).slots.destroys@.push(0u64).push(0u64)
                &&& final(native).slots.data@ == old(native).slots.data@
                    .push(ResourceData::MaterialD { mat: MatState {
                        instance: (old(native).slots.slot_count() + 1) as u64,
                    } })
                    .push(ResourceData::MaterialInstD)
                &&& material_state(*final(native), m.raw).instance == m.raw + 1
            }),
    {
        let _ = package;
        if native.fail_creation {
            return Err(EngineError::CreationFailed);
        }
        let instance = native.slots.rc.len() as u64 + 1;
        let raw = native.create_slot(ResourceData::MaterialD { mat: MatState { instance } });
        let inst_raw = native.create_slot(ResourceData::MaterialInstD);
        native.retain_raw(engine.raw);
        proof {
            assert(inst_raw == instance);
        }
        Ok(Material { raw, engine: engine.raw })
    }

    /// Hands out a handle to the material's built-in default instance.  The
    /// instance belongs to the material natively, which always keeps one
    /// owner of it, so releasing every handle obtained here never destroys
    /// it.
    pub fn default_instance(&self, native: &mut Native) -> (r: MaterialInstance)
        requires
            old(native).wf(),
            self.wf(*old(native)),
            old(native).slots.rc@[material_state(*old(native), self.raw).instance as int] < u64::MAX,
            old(native).slots.rc@[self.engine as int] < u64::MAX,
        ensures
            final(native).wf(),
            same_tables(*old(native), *final(native)),
            r.raw == material_state(*old(native), self.raw).instance,
            r.engine == self.engine,
            r.wf(*final(native)),
            final(native).slots.rc@ == rc_after_handle_clone(
                old(native).slots.rc@,
                material_state(*old(native), self.raw).instance as int,
                self.engine as int),
            final(native).slots.destroys@ == old(native).slots.destroys@,
            final(native).slots.data@ == old(native).slots.data@,
            final(native).slots.rc@[r.raw as int] >= 2,
    {
        let n = native.slots.data.len();
        assert(self.raw < n);
        let instance = match native.slots.data[self.raw as usize] {
            ResourceData::MaterialD { mat } => mat.instance,
            _ => {
                proof {
                    assert(false);
                }
                0
            }
        };
        proof {
            assert(instance != self.engine);
        }
        native.retain_pair(instance, self.engine);
        MaterialInstance { raw: instance, engine: self.engine }
    }

    /// Clones the handle: one more owner of the material, and one more
    /// owner of the engine for the clone's own engine reference.
    pub fn clone_handle(&self, native: &mut Native) -> (c: Material)
        requires
            old(native).wf(),
            self.wf(*old(native)),
            old(native).slots.rc@[self.raw as int] < u64::MAX,
            old(native).slots.rc@[self.engine as int] < u64::MAX,
        ensures
            final(native).wf(),
            same_tables(*old(native), *final(native)),
            c.raw == self.raw,
            c.engine == self.engine,
            c.wf(*final(native)),
            final(native).slots.rc@ == rc_after_handle_clone(
                old(native).slots.rc@, self.raw as int, self.engine as int),
            final(native).slots.destroys@ == old(native).slots.destroys@,
            final(native).slots.data@ == old(native).slots.data@,
    {
        proof {
            assert(self.raw != self.engine);
        }
        native.retain_pair(self.raw, self.engine);
        Material { raw: self.raw, engine: self.engine }
    }

    /// Releases the handle: the material is destroyed exactly when this was
    /// its last owner, and the engine clone the handle kept is released
    /// afterwards.
    pub fn release(self, native: &mut Native)
        requires
            old(native).wf(),
            self.ids_ok(*old(native)),
        ensures
            final(native).wf(),
            same_tables(*old(native), *final(native)),
            final(native).slots.rc@ == rc_after_handle_release(
                old(native).slots.rc@, self.raw as int, self.engine as int),
            final(native).slots.destroys@ == destroys_after_handle_release(
                old(native).slots.rc@, old(native).slots.destroys@,
                self.raw as int, self.engine as int),
            final(native).slots.data@ == old(native).slots.data@,
            old(native).slots.rc@[self.raw as int] == 1
                ==> final(native).slots.destroys@[self.raw as int]
                    == old(native).slots.destroys@[self.raw as int] + 1,
            old(native).slots.rc@[self.raw as int] != 1
                ==> final(native).slots.destroys@[self.raw as int]
                    == old(native).slots.destroys@[self.raw as int],
    {
        native.release_pair(self.raw, self.engine);
    }
}

/// A reference-counted handle to one native material instance; it keeps
/// its own clone of the engine handle.
#[derive(Debug, PartialEq, Eq, Hash, Structural)]
pub struct MaterialInstance {
    pub raw: u64,
    pub engine: u64,
}

impl MaterialInstance {
    pub open spec fn wf(self, n: Native) -> bool {
        &&& n.slots.live(self.raw)
        &&& n.slots.data@[self.raw as int] is MaterialInstD
        &&& n.slots.live(self.engine)
        &&& n.slots.data@[self.engine as int] is EngineD
    }

    /// The identifiers are in range and distinct; all a release needs.
    pub open spec fn ids_ok(self, n: Native) -> bool {
        &&& 0 < self.raw < n.slots.slot_count()
        &&& 0 < self.engine < n.slots.slot_count()
        &&& self.raw != self.engine
    }

    /// Binds a parameter value on the instance; the binding is handed to
    /// the native side and recorded.
    pub fn set(&self, native: &mut Native, name: String, parameter: MaterialParameter)
        requires
            old(native).wf(),
            self.wf(*old(native)),
            match parameter {
                MaterialParameter::Texture(t, _) => t.wf(*old(native)),
            },
        ensures
            final(native).wf(),
            same_slots(*old(native), *final(native)),
            same_entities(*old(native), *final(native)),
            same_scenes(*old(native), *final(native)),
            same_transforms(*old(native), *final(native)),
            same_names(*old(native), *final(native)),
            same_heap(*old(native), *final(native)),
            final(native).fail_creation == old(native).fail_creation,
            match parameter {
                MaterialParameter::Texture(t, s) => final(native).bindings.rows@
                    == old(native).bindings.rows@.push((self.raw, name, t.raw, *s)),
            },
    {
        match parameter {
            MaterialParameter::Texture(texture, sampler) => {
                native.bindings.rows.push((self.raw, name, texture.raw, *sampler));
            }
        }
    }

    /// Clones the handle: one more owner of the instance, and one more
    /// owner of the engine for the clone's own engine reference.
    pub fn clone_handle(&self, native: &mut Native) -> (c: MaterialInstance)
        requires
            old(native).wf(),
            self.wf(*old(native)),
            old(native).slots.rc@[self.raw as int] < u64::MAX,
            old(native).slots.rc@[self.engine as int] < u64::MAX,
        ensures
            final(native).wf(),
            same_tables(*old(native), *final(native)),
            c.raw == self.raw,
            c.engine == self.engine,
            c.wf(*final(native)),
            final(native).slots.rc@ == rc_after_handle_clone(
                old(native).slots.rc@, self.raw as int, self.engine as int),
            final(native).slots.destroys@ == old(native).slots.destroys@,
            final(native).slots.data@ == old(native).slots.data@,
    {
        proof {
            assert(self.raw != self.engine);
        }
        native.retain_pair(self.raw, self.engine);
        MaterialInstance { raw: self.raw, engine: self.engine }
    }

    /// Releases the handle; the engine clone the handle kept is released
    /// with it.  A handle from [`Material::default_instance`] is never the
    /// instance's last owner — the material keeps one — so no destroy call
    /// is issued for it here.
    pub fn release(self, native: &mut Native)
        requires
            old(native).wf(),
            self.ids_ok(*old(native)),
        ensures
            final(native).wf(),
            same_tables(*old(native), *final(native)),
            final(native).slots.rc@ == rc_after_handle_release(
                old(native).slots.rc@, self.raw as int, self.engine as int),
            final(native).slots.destroys@ == destroys_after_handle_release(
                old(native).slots.rc@, old(native).slots.destroys@,
                self.raw as int, self.engine as int),
            final(native).slots.data@ == old(native).slots.data@,
            old(native).slots.rc@[self.raw as int] >= 2
                ==> final(native).slots.destroys@[self.raw as int]
                    == old(native).slots.destroys@[self.raw as int],
    {
        native.release_pair(self.raw, self.engine);
    }
}

} // verus!
