//! The entity registry: dense small integer identifiers, allocated and
//! destroyed through the native side.

use vstd::prelude::*;
use crate::Entity;
use crate::native::Native;
use crate::native::same_slots;
use crate::native::same_scenes;
use crate::native::same_transforms;
use crate::native::same_names;
use crate::native::same_bindings;
use crate::native::same_heap;

verus! {

/// `es` holds an entity with identity `id`.
pub open spec fn holds_entity_id(es: Seq<Entity>, id: u32) -> bool {
    exists|i: int| 0 <= i < es.len() && es[i].id == id
}

/// The entity with identity `id` is currently alive in `n`.
pub open spec fn entity_alive(n: Native, id: u32) -> bool {
    &&& 0 < id <= n.entities.alive@.len()
    &&& n.entities.alive@[id - 1]
}

/// Accessor for the entity registry.  The registry's state lives in the
/// native layer and is passed to each operation explicitly.
pub struct EntityManager {
}

impl EntityManager {
    /// Obtains the registry accessor.
    pub fn get() -> (r: EntityManager)
    {
        EntityManager {}
    }

    /// Allocates one fresh entity: the next dense identifier, alive and
    /// without a renderable record.
    pub fn create(&self, native: &mut Native) -> (e: Entity)
        requires
            old(native).wf(),
            old(native).entities.alive@.len() < u32::MAX - 1,
        ensures
            final(native).wf(),
            same_slots(*old(native), *final(native)),
            same_scenes(*old(native), *final(native)),
            same_transforms(*old(native), *final(native)),
            same_names(*old(native), *final(native)),
            same_bindings(*old(native), *final(native)),
            same_heap(*old(native), *final(native)),
            final(native).fail_creation == old(native).fail_creation,
            e.id == old(native).entities.alive@.len() + 1,
            final(native).entities.alive@ == old(native).entities.alive@.push(true),
            final(native).entities.renderable@ == old(native).entities.renderable@.push(false),
            entity_alive(*final(native), e.id),
    {
        let id = native.entities.alive.len() as u32 + 1;
        native.entities.alive.push(true);
        native.entities.renderable.push(false);
        Entity { id }
    }

    /// Allocates `count` fresh entities with consecutive identifiers.
    pub fn create_vec(&self, native: &mut Native, count: usize) -> (es: Vec<Entity>)
        requires
            old(native).wf(),
            old(native).entities.alive@.len() + count < u32::MAX - 1,
        ensures
            final(native).wf(),
            same_slots(*old(native), *final(native)),
            same_scenes(*old(native), *final(native)),
            same_transforms(*old(native), *final(native)),
            same_names(*old(native), *final(native)),
            same_bindings(*old(native), *final(native)),
            same_heap(*old(native), *final(native)),
            final(native).fail_creation == old(native).fail_creation,
            es@.len() == count,
            forall|k: int| 0 <= k < count
                ==> (#[trigger] es@[k]).id == old(native).entities.alive@.len() + 1 + k,
            final(native).entities.alive@.len() == old(native).entities.alive@.len() + count,
            forall|j: int| 0 <= j < old(native).entities.alive@.len()
                ==> #[trigger] final(native).entities.alive@[j] == old(native).entities.alive@[j],
            forall|j: int| old(native).entities.alive@.len() <= j < final(native).entities.alive@.len()
                ==> #[trigger] final(native).entities.alive@[j],
            final(native).entities.renderable@.len() == old(native).entities.renderable@.len() + count,
            forall|j: int| 0 <= j < old(native).entities.renderable@.len()
                ==> #[trigger] final(native).entities.renderable@[j]
                    == old(native).entities.renderable@[j],
            forall|j: int| old(native).entities.renderable@.len() <= j
                < final(native).entities.renderable@.len()
                ==> !(#[trigger] final(native).entities.renderable@[j]),
    {
        let mut es: Vec<Entity> = Vec::new();
        let mut k: usize = 0;
        while k < count
            invariant
                k <= count,
                native.wf(),
                same_slots(*old(native), *native),
                same_scenes(*old(native), *native),
                same_transforms(*old(native), *native),
                same_names(*old(native), *native),
                same_bindings(*old(native), *native),
                same_heap(*old(native), *native),
                native.fail_creation == old(native).fail_creation,
                old(native).entities.alive@.len() + count < u32::MAX - 1,
                es@.len() == k,
                forall|j: int| 0 <= j < k
                    ==> (#[trigger] es@[j]).id == old(native).entities.alive@.len() + 1 + j,
                native.entities.alive@.len() == old(native).entities.alive@.len() + k,
                forall|j: int| 0 <= j < old(native).entities.alive@.len()
                    ==> #[trigger] native.entities.alive@[j] == old(native).entities.alive@[j],
                forall|j: int| old(native).entities.alive@.len() <= j < native.entities.alive@.len()
                    ==> #[trigger] native.entities.alive@[j],
                native.entities.renderable@.len() == old(native).entities.renderable@.len() + k,
                forall|j: int| 0 <= j < old(native).entities.renderable@.len()
                    ==> #[trigger] native.entities.renderable@[j]
                        == old(native).entities.renderable@[j],
                forall|j: int| old(native).entities.renderable@.len() <= j
                    < native.entities.renderable@.len()
                    ==> !(#[trigger] native.entities.renderable@[j]),
            decreases count - k,
        {
            let e = self.create(native);
            es.push(e);
            k = k + 1;
        }
        es
    }

    /// Destroys each entity of the slice: its identity is no longer alive.
    pub fn destroy(&self, native: &mut Native, entities: &[Entity])
        requires
            old(native).wf(),
            forall|i: int| 0 <= i < entities@.len()
                ==> 0 < (#[trigger] entities@[i]).id <= old(native).entities.alive@.len(),
        ensures
            final(native).wf(),
            same_slots(*old(native), *final(native)),
            same_scenes(*old(native), *final(native)),
            same_transforms(*old(native), *final(native)),
            same_names(*old(native), *final(native)),
            same_bindings(*old(native), *final(native)),
            same_heap(*old(native), *final(native)),
            final(native).fail_creation == old(native).fail_creation,
            final(native).entities.renderable@ == old(native).entities.renderable@,
            final(native).entities.alive@.len() == old(native).entities.alive@.len(),
            forall|j: int| 0 <= j < old(native).entities.alive@.len()
                ==> #[trigger] final(native).entities.alive@[j]
                    == (old(native).entities.alive@[j]
                        && !holds_entity_id(entities@, (j + 1) as u32)),
    {
        let len = entities.len();
        let mut i: usize = 0;
        while i < len
            invariant
                i <= len,
                len == entities@.len(),
                native.wf(),
                same_slots(*old(native), *native),
                same_scenes(*old(native), *native),
                same_transforms(*old(native), *native),
                same_names(*old(native), *native),
                same_bindings(*old(native), *native),
                same_heap(*old(native), *native),
                native.fail_creation == old(native).fail_creation,
                native.entities.renderable@ == old(native).entities.renderable@,
                native.entities.alive@.len() == old(native).entities.alive@.len(),
                forall|k: int| 0 <= k < entities@.len()
                    ==> 0 < (#[trigger] entities@[k]).id <= old(native).entities.alive@.len(),
                forall|j: int| 0 <= j < old(native).entities.alive@.len()
                    ==> #[trigger] native.entities.alive@[j]
                        == (old(native).entities.alive@[j]
                            && !holds_entity_id(entities@.take(i as int), (j + 1) as u32)),
            decreases len - i,
        {
            let e = entities[i];
            let idx = (e.id - 1) as usize;
            native.entities.alive[idx] = false;
            proof {
                let done = entities@.take(i + 1);
                assert(done =~= entities@.take(i as int).push(entities@[i as int]));
                assert forall|j: int| 0 <= j < old(native).entities.alive@.len()
                    implies #[trigger] native.entities.alive@[j]
                        == (old(native).entities.alive@[j]
                            && !holds_entity_id(done, (j + 1) as u32)) by {
                    if j == e.id - 1 {
                        assert(done[i as int].id == (j + 1) as u32);
                        assert(holds_entity_id(done, (j + 1) as u32));
                    } else {
                        assert(holds_entity_id(done, (j + 1) as u32)
                            == holds_entity_id(entities@.take(i as int), (j + 1) as u32)) by {
                            if holds_entity_id(done, (j + 1) as u32) {
                                let w = choose|w: int| 0 <= w < done.len()
                                    && done[w].id == (j + 1) as u32;
                                assert(w < i + 1);
                                assert(w != i);
                                assert(entities@.take(i as int)[w].id == (j + 1) as u32);
                            }
                            if holds_entity_id(entities@.take(i as int), (j + 1) as u32) {
                                let w = choose|w: int| 0 <= w
                                    < entities@.take(i as int).len()
                                    && entities@.take(i as int)[w].id == (j + 1) as u32;
                                assert(done[w].id == (j + 1) as u32);
                            }
                        }
                    }
                }
            }
            i = i + 1;
        }
        proof {
            assert(entities@.take(len as int) =~= entities@);
        }
    }

    /// Fills every position of `entities` with a fresh entity, identifiers
    /// consecutive in slice order.
    pub fn fill_slice(&self, native: &mut Native, entities: &mut Vec<Entity>)
        requires
            old(native).wf(),
            old(native).entities.alive@.len() + old(entities)@.len() < u32::MAX - 1,
        ensures
            final(native).wf(),
            same_slots(*old(native), *final(native)),
            same_scenes(*old(native), *final(native)),
            same_transforms(*old(native), *final(native)),
            same_names(*old(native), *final(native)),
            same_bindings(*old(native), *final(native)),
            same_heap(*old(native), *final(native)),
            final(native).fail_creation == old(native).fail_creation,
            final(entities)@.len() == old(entities)@.len(),
            forall|k: int| 0 <= k < old(entities)@.len()
                ==> (#[trigger] final(entities)@[k]).id
                    == old(native).entities.alive@.len() + 1 + k,
            final(native).entities.alive@.len()
                == old(native).entities.alive@.len() + old(entities)@.len(),
    {
        let len = entities.len();
        let mut k: usize = 0;
        while k < len
            invariant
                k <= len,
                len == entities@.len(),
                entities@.len() == old(entities)@.len(),
                native.wf(),
                same_slots(*old(native), *native),
                same_scenes(*old(native), *native),
                same_transforms(*old(native), *native),
                same_names(*old(native), *native),
                same_bindings(*old(native), *native),
                same_heap(*old(native), *native),
                native.fail_creation == old(native).fail_creation,
                old(native).entities.alive@.len() + len < u32::MAX - 1,
                native.entities.alive@.len() == old(native).entities.alive@.len() + k,
                forall|j: int| 0 <= j < k
                    ==> (#[trigger] entities@[j]).id == old(native).entities.alive@.len() + 1 + j,
            decreases len - k,
        {
            let e = self.create(native);
            entities[k] = e;
            k = k + 1;
        }
    }
}

} // verus!
