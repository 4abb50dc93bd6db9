//! Renderables: drawable geometry attached to a pre-existing entity.

use vstd::prelude::*;
use crate::Engine;
use crate::EngineError;
use crate::Entity;
use crate::buffers::IndexBuffer;
use crate::buffers::VertexBuffer;
use crate::material::MaterialInstance;
use crate::native::Native;
use crate::native::ResourceData;
use crate::native::rc_after_release;
use crate::native::destroys_after_release;
use crate::native::same_tables;
use crate::native::same_slots;
use crate::native::same_entities;
use crate::native::same_scenes;
use crate::native::same_transforms;
use crate::native::same_names;
use crate::native::same_bindings;
use crate::native::same_heap;

verus! {

/// Failure of a renderable builder finalization.
#[derive(Debug, Clone, Copy, PartialEq, Eq, Structural)]
pub enum RenderableBuildError {
    CreationFailed,
}

/// How a geometry slot's indices are interpreted.
#[allow(non_camel_case_types)]
#[derive(Debug, Clone, Copy, PartialEq, Eq, Hash, Structural)]
pub enum PrimitiveType {
    POINTS,
    LINES,
    LINE_STRIP,
    TRIANGLES,
    TRIANGLE_STRIP,
}

/// One accumulated material assignment of a renderable under construction.
#[derive(Debug, Clone, Copy, PartialEq, Eq, Hash, Structural)]
pub struct MaterialAssignment {
    pub index: u64,
    pub material: u64,
}

/// One accumulated geometry declaration of a renderable under construction.
#[derive(Debug, Clone, Copy, PartialEq, Eq, Hash, Structural)]
pub struct GeometryAssignment {
    pub index: u64,
    pub primitive_type: PrimitiveType,
    pub vertices: u64,
    pub indices: u64,
}

/// Accumulates the configuration of a renderable and performs one
/// finalizing native call that populates a pre-existing entity.  The
/// builder owns transient native-side state — a proxy slot — that must be
/// released, by `build` or by `release`, whether or not the build happened.
pub struct RenderableBuilder {
    /// Raw handle of the transient native builder state.
    pub proxy: u64,
    pub count: u64,
    pub materials: Vec<MaterialAssignment>,
    pub geometry: Vec<GeometryAssignment>,
    pub culling: bool,
    pub cast_shadows: bool,
    pub receive_shadows: bool,
    pub screen_space_contact_shadows: bool,
    pub morphing: bool,
}

impl RenderableBuilder {
    /// The builder's transient native state is alive.
    pub open spec fn wf(self, n: Native) -> bool {
        &&& n.slots.live(self.proxy)
        &&& n.slots.data@[self.proxy as int] is ProxyD
    }

    /// The proxy identifier is in range; all a release needs.
    pub open spec fn ids_ok(self, n: Native) -> bool {
        0 < self.proxy < n.slots.slot_count()
    }

    /// Allocates the transient native builder state for a renderable with
    /// `count` geometry slots.  Fails exactly when the native allocation
    /// returns null, in which case nothing was created.
    pub fn new(native: &mut Native, count: usize) -> (r: Result<RenderableBuilder, EngineError>)
        requires
            old(native).wf(),
            old(native).slots.slot_count() < u64::MAX,
        ensures
            final(native).wf(),
            same_tables(*old(native), *final(native)),
            old(native).fail_creation ==> (r matches Err(EngineError::CreationFailed))
                && same_slots(*old(native), *final(native)),
            !old(native).fail_creation ==> (r matches Ok(b) && {
                &&& b.proxy == old(native).slots.slot_count()
                &&& b.wf(*final(native))
                &&& b.count == count
                &&& b.materials@ =~= Seq::<MaterialAssignment>::empty()
                &&& b.geometry@ =~= Seq::<GeometryAssignment>::empty()
                &&& b.culling && !b.cast_shadows && !b.receive_shadows
                &&& !b.screen_space_contact_shadows && !b.morphing
                &&& final(native).slots.rc@ == old(native).slots.rc@.push(1u64)
                &&& final(native).slots.destroys@ == old(native).slots.destroys@.push(0u64)
                &&& final(native).slots.data@ == old(native).slots.data@.push(ResourceData::ProxyD)
            }),
    {
        let raw = native.create_slot(ResourceData::ProxyD);
        if raw == 0 {
            Err(EngineError::CreationFailed)
        } else {
            Ok(RenderableBuilder {
                proxy: raw,
                count: count as u64,
                materials: Vec::new(),
                geometry: Vec::new(),
                culling: true,
                cast_shadows: false,
                receive_shadows: false,
                screen_space_contact_shadows: false,
                morphing: false,
            })
        }
    }

    /// Assigns `material` to geometry slot `index`.
    pub fn material(self, index: usize, material: &MaterialInstance) -> (r: Self)
        ensures
            r.materials@ == self.materials@.push(MaterialAssignment {
                index: index as u64,
                material: material.raw,
            }),
            r.proxy == self.proxy,
            r.count == self.count,
            r.geometry@ == self.geometry@,
            r.culling == self.culling,
            r.cast_shadows == self.cast_shadows,
            r.receive_shadows == self.receive_shadows,
            r.screen_space_contact_shadows == self.screen_space_contact_shadows,
            r.morphing == self.morphing,
    {
        let mut b = self;
        b.materials.push(MaterialAssignment { index: index as u64, material: material.raw });
        b
    }

    /// Declares the geometry of slot `index`.
    pub fn geometry(
        self,
        index: usize,
        primitive_type: PrimitiveType,
        vertices: &VertexBuffer,
        indices: &IndexBuffer,
    ) -> (r: Self)
        ensures
            r.geometry@ == self.geometry@.push(GeometryAssignment {
                index: index as u64,
                primitive_type,
                vertices: vertices.raw,
                indices: indices.raw,
            }),
            r.proxy == self.proxy,
            r.count == self.count,
            r.materials@ == self.materials@,
            r.culling == self.culling,
            r.cast_shadows == self.cast_shadows,
            r.receive_shadows == self.receive_shadows,
            r.screen_space_contact_shadows == self.screen_space_contact_shadows,
            r.morphing == self.morphing,
    {
        let mut b = self;
        b.geometry.push(GeometryAssignment {
            index: index as u64,
            primitive_type,
            vertices: vertices.raw,
            indices: indices.raw,
        });
        b
    }

    pub fn culling(self, value: bool) -> (r: Self)
        ensures
            r.culling == value,
            r.proxy == self.proxy,
            r.count == self.count,
            r.materials@ == self.materials@,
            r.geometry@ == self.geometry@,
            r.cast_shadows == self.cast_shadows,
            r.receive_shadows == self.receive_shadows,
            r.screen_space_contact_shadows == self.screen_space_contact_shadows,
            r.morphing == self.morphing,
    {
        let mut b = self;
        b.culling = value;
        b
    }

    pub fn cast_shadows(self, value: bool) -> (r: Self)
        ensures
            r.cast_shadows == value,
            r.proxy == self.proxy,
            r.count == self.count,
            r.materials@ == self.materials@,
            r.geometry@ == self.geometry@,
            r.culling == self.culling,
            r.receive_shadows == self.receive_shadows,
            r.screen_space_contact_shadows == self.screen_space_contact_shadows,
            r.morphing == self.morphing,
    {
        let mut b = self;
        b.cast_shadows = value;
        b
    }

    pub fn receive_shadows(self, value: bool) -> (r: Self)
        ensures
            r.receive_shadows == value,
            r.proxy == self.proxy,
            r.count == self.count,
            r.materials@ == self.materials@,
            r.geometry@ == self.geometry@,
            r.culling == self.culling,
            r.cast_shadows == self.cast_shadows,
            r.screen_space_contact_shadows == self.screen_space_contact_shadows,
            r.morphing == self.morphing,
    {
        let mut b = self;
        b.receive_shadows = value;
        b
    }

    pub fn screen_space_contact_shadows(self, value: bool) -> (r: Self)
        ensures
            r.screen_space_contact_shadows == value,
            r.proxy == self.proxy,
            r.count == self.count,
            r.materials@ == self.materials@,
            r.geometry@ == self.geometry@,
            r.culling == self.culling,
            r.cast_shadows == self.cast_shadows,
            r.receive_shadows == self.receive_shadows,
            r.morphing == self.morphing,
    {
        let mut b = self;
        b.screen_space_contact_shadows = value;
        b
    }

    pub fn morphing(self, value: bool) -> (r: Self)
        ensures
            r.morphing == value,
            r.proxy == self.proxy,
            r.count == self.count,
            r.materials@ == self.materials@,
            r.geometry@ == self.geometry@,
            r.culling == self.culling,
            r.cast_shadows == self.cast_shadows,
            r.receive_shadows == self.receive_shadows,
            r.screen_space_contact_shadows == self.screen_space_contact_shadows,
    {
        let mut b = self;
        b.morphing = value;
        b
    }

    /// The one finalizing native call: populates `entity` with the
    /// accumulated renderable configuration, then releases the transient
    /// builder state whether or not the build succeeded.  Fails exactly
    /// when the native finalize call reports failure.
    pub fn build(self, native: &mut Native, engine: &Engine, entity: Entity)
        -> (r: Result<(), RenderableBuildError>)
        requires
            old(native).wf(),
            self.wf(*old(native)),
            engine.wf(*old(native)),
            0 < entity.id <= old(native).entities.renderable@.len(),
        ensures
            final(native).wf(),
            same_scenes(*old(native), *final(native)),
            same_transforms(*old(native), *final(native)),
            same_names(*old(native), *final(native)),
            same_bindings(*old(native), *final(native)),
            same_heap(*old(native), *final(native)),
            final(native).fail_creation == old(native).fail_creation,
            final(native).slots.rc@ == rc_after_release(old(native).slots.rc@, self.proxy as int),
            final(native).slots.destroys@ == destroys_after_release(
                old(native).slots.rc@, old(native).slots.destroys@, self.proxy as int),
            final(native).slots.data@ == old(native).slots.data@,
            old(native).fail_creation ==> (r matches Err(RenderableBuildError::CreationFailed))
                && same_entities(*old(native), *final(native)),
            !old(native).fail_creation ==> (r matches Ok(u) && u == ()) && ({
                &&& final(native).entities.alive@ == old(native).entities.alive@
                &&& final(native).entities.renderable@
                    == old(native).entities.renderable@.update(entity.id - 1, true)
            }),
    {
        let failed = native.fail_creation;
        if !failed {
            let idx = (entity.id - 1) as usize;
            native.entities.renderable[idx] = true;
        }
        native.release_raw(self.proxy);
        if failed {
            Err(RenderableBuildError::CreationFailed)
        } else {
            Ok(())
        }
    }

    /// Releases the transient builder state of an abandoned builder that
    /// never reached `build`.
    pub fn release(self, native: &mut Native)
        requires
            old(native).wf(),
            self.ids_ok(*old(native)),
        ensures
            final(native).wf(),
            same_tables(*old(native), *final(native)),
            final(native).slots.rc@ == rc_after_release(old(native).slots.rc@, self.proxy as int),
            final(native).slots.destroys@ == destroys_after_release(
                old(native).slots.rc@, old(native).slots.destroys@, self.proxy as int),
            final(native).slots.data@ == old(native).slots.data@,
    {
        native.release_raw(self.proxy);
    }
}

} // verus!
