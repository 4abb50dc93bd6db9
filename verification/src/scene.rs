//! Scenes: which entities the engine considers part of a world.

use vstd::prelude::*;
use crate::Engine;
use crate::EngineError;
use crate::Entity;
use crate::native::Native;
use crate::native::ResourceData;
use crate::native::member_has;
use crate::native::scene_member_count;
use crate::native::lemma_scene_member_count_push;
use crate::native::lemma_scene_member_count_remove;
use crate::native::lemma_scene_member_count_nonnegative;
use crate::native::rc_after_handle_clone;
use crate::native::rc_after_handle_release;
use crate::native::rc_after_retain;
use crate::native::destroys_after_handle_release;
use crate::native::same_slots;
use crate::native::same_tables;
use crate::native::same_entities;
use crate::native::same_transforms;
use crate::native::same_names;
use crate::native::same_bindings;
use crate::native::same_heap;

verus! {

/// The membership relation after adding one entity to a scene: a new row
/// unless the scene already holds the entity.
pub open spec fn members_after_add(members: Seq<(u64, Entity)>, scene: u64, e: Entity) -> Seq<(u64, Entity)> {
    if member_has(members, scene, e) {
        members
    } else {
        members.push((scene, e))
    }
}

/// The membership relation after adding each entity of `es` in order.
pub open spec fn members_after_extend(members: Seq<(u64, Entity)>, scene: u64, es: Seq<Entity>) -> Seq<(u64, Entity)>
    decreases es.len(),
{
    if es.len() == 0 {
        members
    } else {
        members_after_extend(members_after_add(members, scene, es[0]), scene, es.subrange(1, es.len() as int))
    }
}

/// Looks up the row index of `(scene, e)` in the membership relation.
fn find_member(native: &Native, scene: u64, e: Entity) -> (r: Option<usize>)
    ensures
        r matches Some(k) ==> 0 <= k < native.scenes.members@.len()
            && native.scenes.members@[k as int] == (scene, e),
        r is None ==> !native.scenes.has(scene, e),
{
    let members = &native.scenes.members;
    let len = members.len();
    let mut i: usize = 0;
    while i < len
        invariant
            i <= len,
            len == native.scenes.members@.len(),
            members@ == native.scenes.members@,
            forall|j: int| 0 <= j < i ==> native.scenes.members@[j] != (scene, e),
        decreases len - i,
    {
        let row = members[i];
        if row.0 == scene && row.1 == e {
            return Some(i);
        }
        i = i + 1;
    }
    None
}

/// A reference-counted handle to one native scene; it keeps its own clone
/// of the engine handle.
#[derive(Debug, PartialEq, Eq, Hash, Structural)]
pub struct Scene {
    pub raw: u64,
    pub engine: u64,
}

impl Scene {
    pub open spec fn wf(self, n: Native) -> bool {
        &&& n.slots.live(self.raw)
        &&& n.slots.data@[self.raw as int] is SceneD
        &&& n.slots.live(self.engine)
        &&& n.slots.data@[self.engine as int] is EngineD
    }

    /// The identifiers are in range and distinct; all a release needs.
    pub open spec fn ids_ok(self, n: Native) -> bool {
        &&& 0 < self.raw < n.slots.slot_count()
        &&& 0 < self.engine < n.slots.slot_count()
        &&& self.raw != self.engine
    }

    /// How many of the scene's entities carry a renderable record.  Every
    /// entity added to a scene occupies one renderable record at this layer,
    /// which creates no lights.
    pub open spec fn spec_renderable_count(self, n: Native) -> int {
        scene_member_count(n.scenes.members@, self.raw)
    }

    /// Asks the engine for a new scene.  Fails exactly when the native
    /// factory returns null, in which case nothing was created.
    pub fn new(native: &mut Native, engine: &Engine) -> (r: Result<Scene, EngineError>)
        requires
            old(native).wf(),
            engine.wf(*old(native)),
            old(native).slots.slot_count() < u64::MAX,
            old(native).slots.rc@[engine.raw as int] < u64::MAX,
        ensures
            final(native).wf(),
            same_tables(*old(native), *final(native)),
            old(native).fail_creation ==> (r matches Err(EngineError::CreationFailed))
                && same_slots(*old(native), *final(native)),
            !old(native).fail_creation ==> (r matches Ok(s) && {
                &&& s.raw == old(native).slots.slot_count()
                &&& s.engine == engine.raw
                &&& s.wf(*final(native))
                &&& final(native).slots.rc@ == rc_after_retain(
                    old(native).slots.rc@.push(1u64), engine.raw as int)
                &&& final(native).slots.destroys@ == old(native).slots.destroys@.push(0u64)
                &&& final(native).slots.data@ == old(native).slots.data@.push(ResourceData::SceneD)
            }),
    {
        let raw = native.create_dependent_slot(ResourceData::SceneD, engine.raw);
        if raw == 0 {
            Err(EngineError::CreationFailed)
        } else {
            Ok(Scene { raw, engine: engine.raw })
        }
    }

    /// How many renderable records the scene holds: one per entity added.
    pub fn renderable_count(&self, native: &Native) -> (r: usize)
        requires
            native.wf(),
            self.wf(*native),
        ensures
            r == self.spec_renderable_count(*native),
    {
        let members = &native.scenes.members;
        let len = members.len();
        let mut i: usize = 0;
        let mut c: usize = 0;
        proof {
            assert(native.scenes.members@.take(0) =~= Seq::<(u64, Entity)>::empty());
        }
        while i < len
            invariant
                i <= len,
                c <= i,
                len == native.scenes.members@.len(),
                members@ == native.scenes.members@,
                c == scene_member_count(native.scenes.members@.take(i as int), self.raw),
            decreases len - i,
        {
            proof {
                assert(native.scenes.members@.take(i + 1)
                    =~= native.scenes.members@.take(i as int).push(native.scenes.members@[i as int]));
                lemma_scene_member_count_push(
                    native.scenes.members@.take(i as int), self.raw, native.scenes.members@[i as int]);
                lemma_scene_member_count_nonnegative(native.scenes.members@.take(i as int), self.raw);
            }
            if members[i].0 == self.raw {
                c = c + 1;
            }
            i = i + 1;
        }
        proof {
            assert(native.scenes.members@.take(len as int) =~= native.scenes.members@);
        }
        c
    }

    /// How many light records the scene holds.  This layer creates no
    /// lights, so the native side records none.
    pub fn light_count(&self, native: &Native) -> (r: usize)
        requires
            native.wf(),
            self.wf(*native),
        ensures
            r == 0,
    {
        0
    }

    /// The scene's renderable records and light records together.
    pub fn len(&self, native: &Native) -> (r: usize)
        requires
            native.wf(),
            self.wf(*native),
        ensures
            r == self.spec_renderable_count(*native),
    {
        let rc = self.renderable_count(native);
        let lc = self.light_count(native);
        rc + lc
    }

    /// Whether the scene holds no entity at all.
    pub fn is_empty(&self, native: &Native) -> (r: bool)
        requires
            native.wf(),
            self.wf(*native),
        ensures
            r == (self.spec_renderable_count(*native) == 0),
    {
        self.len(native) == 0
    }

    /// Whether the scene holds `entity`.
    pub fn contains(&self, native: &Native, entity: Entity) -> (r: bool)
        requires
            native.wf(),
            self.wf(*native),
        ensures
            r == native.scenes.has(self.raw, entity),
    {
        match find_member(native, self.raw, entity) {
            Some(_) => true,
            None => false,
        }
    }

    /// Adds `entity` to the scene: one more renderable record, unless the
    /// scene already holds the entity, in which case nothing changes.
    pub fn push(&self, native: &mut Native, entity: Entity)
        requires
            old(native).wf(),
            self.wf(*old(native)),
        ensures
            final(native).wf(),
            same_slots(*old(native), *final(native)),
            same_entities(*old(native), *final(native)),
            same_transforms(*old(native), *final(native)),
            same_names(*old(native), *final(native)),
            same_bindings(*old(native), *final(native)),
            same_heap(*old(native), *final(native)),
            final(native).fail_creation == old(native).fail_creation,
            final(native).scenes.members@
                == members_after_add(old(native).scenes.members@, self.raw, entity),
            final(native).scenes.has(self.raw, entity),
            !old(native).scenes.has(self.raw, entity)
                ==> self.spec_renderable_count(*final(native))
                    == self.spec_renderable_count(*old(native)) + 1,
            old(native).scenes.has(self.raw, entity)
                ==> final(native).scenes.members@ == old(native).scenes.members@,
            forall|s: u64| s != self.raw
                ==> scene_member_count(final(native).scenes.members@, s)
                    == scene_member_count(old(native).scenes.members@, s),
    {
        if self.contains(native, entity) {
            return;
        }
        proof {
            lemma_scene_member_count_push(old(native).scenes.members@, self.raw, (self.raw, entity));
            assert forall|s: u64| s != self.raw
                implies scene_member_count(old(native).scenes.members@.push((self.raw, entity)), s)
                    == scene_member_count(old(native).scenes.members@, s) by {
                lemma_scene_member_count_push(old(native).scenes.members@, s, (self.raw, entity));
            }
        }
        native.scenes.members.push((self.raw, entity));
        proof {
            let m = native.scenes.members@;
            assert(m[m.len() - 1] == (self.raw, entity));
        }
    }

    /// Removes `entity` from the scene: its renderable record goes away; if
    /// the scene does not hold the entity, nothing changes.
    pub fn remove(&self, native: &mut Native, entity: Entity)
        requires
            old(native).wf(),
            self.wf(*old(native)),
        ensures
            final(native).wf(),
            same_slots(*old(native), *final(native)),
            same_entities(*old(native), *final(native)),
            same_transforms(*old(native), *final(native)),
            same_names(*old(native), *final(native)),
            same_bindings(*old(native), *final(native)),
            same_heap(*old(native), *final(native)),
            final(native).fail_creation == old(native).fail_creation,
            !old(native).scenes.has(self.raw, entity)
                ==> final(native).scenes.members@ == old(native).scenes.members@,
            old(native).scenes.has(self.raw, entity) ==> ({
                &&& exists|k: int| 0 <= k < old(native).scenes.members@.len()
                    && old(native).scenes.members@[k] == (self.raw, entity)
                    && final(native).scenes.members@ == old(native).scenes.members@.remove(k)
                &&& self.spec_renderable_count(*final(native))
                    == self.spec_renderable_count(*old(native)) - 1
                &&& !final(native).scenes.has(self.raw, entity)
            }),
            forall|s: u64| s != self.raw
                ==> scene_member_count(final(native).scenes.members@, s)
                    == scene_member_count(old(native).scenes.members@, s),
    {
        let ghost m0 = native.scenes.members@;
        match find_member(native, self.raw, entity) {
            None => {}
            Some(k) => {
                proof {
                    lemma_scene_member_count_remove(m0, self.raw, k as int);
                    assert forall|s: u64| s != self.raw
                        implies scene_member_count(m0.remove(k as int), s)
                            == scene_member_count(m0, s) by {
                        lemma_scene_member_count_remove(m0, s, k as int);
                    }
                }
                native.scenes.members.remove(k);
                proof {
                    let m1 = native.scenes.members@;
                    assert(m1 =~= m0.remove(k as int));
                    assert forall|j: int| 0 <= j < m1.len()
                        implies m1[j] != (self.raw, entity) by {
                        if j < k {
                            assert(m1[j] == m0[j]);
                        } else {
                            assert(m1[j] == m0[j + 1]);
                        }
                    }
                }
            }
        }
    }

    /// Adds each entity of `entities` to the scene in order.
    pub fn extend(&self, native: &mut Native, entities: Vec<Entity>)
        requires
            old(native).wf(),
            self.wf(*old(native)),
        ensures
            final(native).wf(),
            same_slots(*old(native), *final(native)),
            same_entities(*old(native), *final(native)),
            same_transforms(*old(native), *final(native)),
            same_names(*old(native), *final(native)),
            same_bindings(*old(native), *final(native)),
            same_heap(*old(native), *final(native)),
            final(native).fail_creation == old(native).fail_creation,
            final(native).scenes.members@
                == members_after_extend(old(native).scenes.members@, self.raw, entities@),
    {
        let len = entities.len();
        let mut i: usize = 0;
        proof {
            assert(entities@.skip(0) =~= entities@);
        }
        while i < len
            invariant
                i <= len,
                len == entities@.len(),
                native.wf(),
                self.wf(*native),
                same_slots(*old(native), *native),
                same_entities(*old(native), *native),
                same_transforms(*old(native), *native),
                same_names(*old(native), *native),
                same_bindings(*old(native), *native),
                same_heap(*old(native), *native),
                native.fail_creation == old(native).fail_creation,
                members_after_extend(native.scenes.members@, self.raw, entities@.skip(i as int))
                    == members_after_extend(old(native).scenes.members@, self.raw, entities@),
            decreases len - i,
        {
            let ghost pre = native.scenes.members@;
            let ghost rest = entities@.skip(i as int);
            self.push(native, entities[i]);
            proof {
                assert(rest[0] == entities@[i as int]);
                assert(rest.subrange(1, rest.len() as int) =~= entities@.skip(i + 1));
                assert(native.scenes.members@ == members_after_add(pre, self.raw, entities@[i as int]));
            }
            i = i + 1;
        }
        proof {
            assert(entities@.skip(len as int) =~= Seq::<Entity>::empty());
        }
    }

    /// Adds each entity of the slice to the scene in order.
    pub fn extend_from_slice(&self, native: &mut Native, entities: &[Entity])
        requires
            old(native).wf(),
            self.wf(*old(native)),
        ensures
            final(native).wf(),
            same_slots(*old(native), *final(native)),
            same_entities(*old(native), *final(native)),
            same_transforms(*old(native), *final(native)),
            same_names(*old(native), *final(native)),
            same_bindings(*old(native), *final(native)),
            same_heap(*old(native), *final(native)),
            final(native).fail_creation == old(native).fail_creation,
            final(native).scenes.members@
                == members_after_extend(old(native).scenes.members@, self.raw, entities@),
    {
        let len = entities.len();
        let mut i: usize = 0;
        proof {
            assert(entities@.skip(0) =~= entities@);
        }
        while i < len
            invariant
                i <= len,
                len == entities@.len(),
                native.wf(),
                self.wf(*native),
                same_slots(*old(native), *native),
                same_entities(*old(native), *native),
                same_transforms(*old(native), *native),
                same_names(*old(native), *native),
                same_bindings(*old(native), *native),
                same_heap(*old(native), *native),
                native.fail_creation == old(native).fail_creation,
                members_after_extend(native.scenes.members@, self.raw, entities@.skip(i as int))
                    == members_after_extend(old(native).scenes.members@, self.raw, entities@),
            decreases len - i,
        {
            let ghost pre = native.scenes.members@;
            let ghost rest = entities@.skip(i as int);
            self.push(native, entities[i]);
            proof {
                assert(rest[0] == entities@[i as int]);
                assert(rest.subrange(1, rest.len() as int) =~= entities@.skip(i + 1));
                assert(native.scenes.members@ == members_after_add(pre, self.raw, entities@[i as int]));
            }
            i = i + 1;
        }
        proof {
            assert(entities@.skip(len as int) =~= Seq::<Entity>::empty());
        }
    }

    /// Clones the handle: one more owner of the scene, and one more owner
    /// of the engine for the clone's own engine reference.
    pub fn clone_handle(&self, native: &mut Native) -> (c: Scene)
        requires
            old(native).wf(),
            self.wf(*old(native)),
            old(native).slots.rc@[self.raw as int] < u64::MAX,
            old(native).slots.rc@[self.engine as int] < u64::MAX,
        ensures
            final(native).wf(),
            same_tables(*old(native), *final(native)),
            c.raw == self.raw,
            c.engine == self.engine,
            c.wf(*final(native)),
            final(native).slots.rc@ == rc_after_handle_clone(
                old(native).slots.rc@, self.raw as int, self.engine as int),
            final(native).slots.destroys@ == old(native).slots.destroys@,
            final(native).slots.data@ == old(native).slots.data@,
    {
        proof {
            assert(self.raw != self.engine);
        }
        native.retain_pair(self.raw, self.engine);
        Scene { raw: self.raw, engine: self.engine }
    }

    /// Releases the handle: the scene is destroyed exactly when this was
    /// its last owner, and the engine clone the handle kept is released
    /// afterwards.
    pub fn release(self, native: &mut Native)
        requires
            old(native).wf(),
            self.ids_ok(*old(native)),
        ensures
            final(native).wf(),
            same_tables(*old(native), *final(native)),
            final(native).slots.rc@ == rc_after_handle_release(
                old(native).slots.rc@, self.raw as int, self.engine as int),
            final(native).slots.destroys@ == destroys_after_handle_release(
                old(native).slots.rc@, old(native).slots.destroys@,
                self.raw as int, self.engine as int),
            final(native).slots.data@ == old(native).slots.data@,
            old(native).slots.rc@[self.raw as int] == 1
                ==> final(native).slots.destroys@[self.raw as int]
                    == old(native).slots.destroys@[self.raw as int] + 1,
            old(native).slots.rc@[self.raw as int] != 1
                ==> final(native).slots.destroys@[self.raw as int]
                    == old(native).slots.destroys@[self.raw as int],
    {
        native.release_pair(self.raw, self.engine);
    }
}

} // verus!
