//! Transform components: per-entity matrices, addressed through 1-based
//! instance identifiers.
//!
//! Matrix entries cross the native boundary as the bit patterns of their
//! sixteen scalar values, held here as plain `u32` words.

use vstd::prelude::*;
use crate::Entity;
use crate::native::Native;
use crate::native::TransformTable;
use crate::native::same_slots;
use crate::native::same_entities;
use crate::native::same_scenes;
use crate::native::same_names;
use crate::native::same_bindings;
use crate::native::same_heap;

verus! {

/// A 1-based handle to one transform component; 0 is never handed out.
pub type TransformInstance = u32;

/// Bit pattern of the scalar one in the engine's matrix element format.
pub const FLOAT_ONE_BITS: u32 = 0x3F800000;

/// The identity matrix, entry bit patterns in column-major order.
pub open spec fn identity_bits() -> Seq<u32> {
    seq![
        FLOAT_ONE_BITS, 0u32, 0u32, 0u32,
        0u32, FLOAT_ONE_BITS, 0u32, 0u32,
        0u32, 0u32, FLOAT_ONE_BITS, 0u32,
        0u32, 0u32, 0u32, FLOAT_ONE_BITS,
    ]
}

/// Builds the identity matrix a fresh transform component starts from.
pub fn identity_transform_bits() -> (r: [u32; 16])
    ensures
        r@ == identity_bits(),
{
    let r: [u32; 16] = [
        FLOAT_ONE_BITS, 0, 0, 0,
        0, FLOAT_ONE_BITS, 0, 0,
        0, 0, FLOAT_ONE_BITS, 0,
        0, 0, 0, FLOAT_ONE_BITS,
    ];
    proof {
        assert(r@ =~= identity_bits());
    }
    r
}

/// Looks up the row index of the transform component attached to the entity
/// with identity `id`.
pub(crate) fn find_transform_row(t: &TransformTable, id: u32) -> (r: Option<usize>)
    ensures
        r matches Some(k) ==> 0 <= k < t.rows@.len() && t.rows@[k as int].0 == id,
        r is None ==> !t.has_entity(id),
{
    let len = t.rows.len();
    let mut i: usize = 0;
    while i < len
        invariant
            i <= len,
            len == t.rows@.len(),
            forall|j: int| 0 <= j < i ==> (#[trigger] t.rows@[j]).0 != id,
        decreases len - i,
    {
        if t.rows[i].0 == id {
            return Some(i);
        }
        i = i + 1;
    }
    None
}

/// Accessor for the engine's transform components.  It carries no native
/// object of its own and is never destroyed.
pub struct TransformManager {
    pub engine: u64,
}

impl TransformManager {
    pub open spec fn wf(self, n: Native) -> bool {
        &&& n.slots.live(self.engine)
        &&& n.slots.data@[self.engine as int] is EngineD
    }

    /// The transform instance attached to `entity`, if any.  An entity has
    /// at most one, so the result is determined by the table.
    pub fn get(&self, native: &Native, entity: Entity) -> (r: Option<TransformInstance>)
        requires
            native.wf(),
            self.wf(*native),
        ensures
            r matches Some(inst) ==> 0 < inst <= native.transforms.rows@.len()
                && native.transforms.rows@[inst - 1].0 == entity.id,
            r is None ==> !native.transforms.has_entity(entity.id),
    {
        match find_transform_row(&native.transforms, entity.id) {
            Some(k) => Some(k as u32 + 1),
            None => None,
        }
    }

    /// The matrix held by `instance`, or nothing for an identifier that
    /// names no component.
    pub fn get_transform(&self, native: &Native, instance: TransformInstance) -> (r: Option<[u32; 16]>)
        requires
            native.wf(),
            self.wf(*native),
        ensures
            0 < instance <= native.transforms.rows@.len()
                ==> r == Some(native.transforms.rows@[instance - 1].1),
            !(0 < instance <= native.transforms.rows@.len()) ==> r is None,
    {
        let len = native.transforms.rows.len();
        if instance == 0 {
            return None;
        }
        let k = (instance - 1) as usize;
        if k >= len {
            return None;
        }
        Some(native.transforms.rows[k].1)
    }

    /// Replaces the matrix held by `instance`; the component stays attached
    /// to the same entity.
    pub fn set_transform(&self, native: &mut Native, instance: TransformInstance, transform: [u32; 16])
        requires
            old(native).wf(),
            self.wf(*old(native)),
            0 < instance <= old(native).transforms.rows@.len(),
        ensures
            final(native).wf(),
            same_slots(*old(native), *final(native)),
            same_entities(*old(native), *final(native)),
            same_scenes(*old(native), *final(native)),
            same_names(*old(native), *final(native)),
            same_bindings(*old(native), *final(native)),
            same_heap(*old(native), *final(native)),
            final(native).fail_creation == old(native).fail_creation,
            final(native).transforms.rows@ == old(native).transforms.rows@.update(
                instance - 1,
                (old(native).transforms.rows@[instance - 1].0, transform),
            ),
    {
        let k = (instance - 1) as usize;
        let row = native.transforms.rows[k];
        native.transforms.rows[k] = (row.0, transform);
        proof {
            assert forall|i: int, j: int|
                0 <= i < j < native.transforms.rows@.len()
                implies (#[trigger] native.transforms.rows@[i]).0
                    != (#[trigger] native.transforms.rows@[j]).0 by {
                assert(native.transforms.rows@[i].0 == old(native).transforms.rows@[i].0);
                assert(native.transforms.rows@[j].0 == old(native).transforms.rows@[j].0);
            }
        }
    }
}

} // verus!
