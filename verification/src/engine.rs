//! The engine context: the root owner every other handle keeps alive.

use vstd::prelude::*;
use crate::Backend;
use crate::buffers::deallocate_rust_buffer;
use crate::native::EngineState;
use crate::native::Native;
use crate::native::PendingUpload;
use crate::native::ResourceData;
use crate::native::pending_names;
use crate::native::rc_after_release;
use crate::native::rc_after_retain;
use crate::native::destroys_after_release;
use crate::native::same_tables;
use crate::native::same_slots;
use crate::native::same_entities;
use crate::native::same_scenes;
use crate::native::same_transforms;
use crate::native::same_names;
use crate::native::same_bindings;
use crate::transform::TransformManager;

verus! {

/// Failure of an engine-level factory call: the native side returned the
/// null handle.
#[derive(Debug, Clone, Copy, PartialEq, Eq, Structural)]
pub enum EngineError {
    CreationFailed,
}

/// A reference-counted handle to one native engine instance.  Dependent
/// handles keep their own clone of it, so the context stays alive while any
/// of them exists.
#[derive(Debug, PartialEq, Eq, Hash, Structural)]
pub struct Engine {
    pub raw: u64,
}

/// The backend the engine slot `raw` was created for.
pub open spec fn engine_backend(n: Native, raw: u64) -> Backend {
    n.slots.data@[raw as int]->EngineD_eng.backend
}

impl Engine {
    /// The handle names a live engine slot.
    pub open spec fn wf(self, n: Native) -> bool {
        &&& n.slots.live(self.raw)
        &&& n.slots.data@[self.raw as int] is EngineD
    }

    /// Asks the native layer for a new engine instance.  Fails exactly when
    /// the native factory returns null, in which case nothing was created.
    pub fn new(native: &mut Native, backend: Backend) -> (r: Result<Engine, EngineError>)
        requires
            old(native).wf(),
            old(native).slots.slot_count() < u64::MAX,
        ensures
            final(native).wf(),
            same_tables(*old(native), *final(native)),
            old(native).fail_creation ==> (r matches Err(EngineError::CreationFailed))
                && same_slots(*old(native), *final(native)),
            !old(native).fail_creation ==> (r matches Ok(e) && {
                &&& e.raw == old(native).slots.slot_count()
                &&& e.wf(*final(native))
                &&& final(native).slots.rc@ == old(native).slots.rc@.push(1u64)
                &&& final(native).slots.destroys@ == old(native).slots.destroys@.push(0u64)
                &&& final(native).slots.data@ == old(native).slots.data@.push(
                    ResourceData::EngineD { eng: EngineState { backend } })
                &&& engine_backend(*final(native), e.raw) == backend
            }),
    {
        let raw = native.create_slot(ResourceData::EngineD { eng: EngineState { backend } });
        if raw == 0 {
            Err(EngineError::CreationFailed)
        } else {
            Ok(Engine { raw })
        }
    }

    /// Clones the handle: the engine's reference count steps up by one and
    /// the clone shares identity with the original.
    pub fn clone_handle(&self, native: &mut Native) -> (c: Engine)
        requires
            old(native).wf(),
            self.wf(*old(native)),
            old(native).slots.rc@[self.raw as int] < u64::MAX,
        ensures
            final(native).wf(),
            same_tables(*old(native), *final(native)),
            c.raw == self.raw,
            c.wf(*final(native)),
            final(native).slots.rc@ == rc_after_retain(old(native).slots.rc@, self.raw as int),
            final(native).slots.destroys@ == old(native).slots.destroys@,
            final(native).slots.data@ == old(native).slots.data@,
    {
        native.retain_raw(self.raw);
        Engine { raw: self.raw }
    }

    /// Releases the handle.  The owner that finds itself last — reference
    /// count exactly 1 — issues the one native destroy call for the engine;
    /// any other release issues none.
    pub fn release(self, native: &mut Native)
        requires
            old(native).wf(),
            0 < self.raw < old(native).slots.slot_count(),
        ensures
            final(native).wf(),
            same_tables(*old(native), *final(native)),
            final(native).slots.rc@ == rc_after_release(old(native).slots.rc@, self.raw as int),
            final(native).slots.destroys@ == destroys_after_release(
                old(native).slots.rc@, old(native).slots.destroys@, self.raw as int),
            final(native).slots.data@ == old(native).slots.data@,
            old(native).slots.rc@[self.raw as int] == 1
                ==> final(native).slots.destroys@[self.raw as int]
                    == old(native).slots.destroys@[self.raw as int] + 1,
            old(native).slots.rc@[self.raw as int] != 1
                ==> final(native).slots.destroys@ == old(native).slots.destroys@,
    {
        native.release_raw(self.raw);
    }

    /// Queries which backend the engine was created for.
    pub fn backend(&self, native: &Native) -> (r: Backend)
        requires
            native.wf(),
            self.wf(*native),
        ensures
            r == engine_backend(*native, self.raw),
    {
        let n = native.slots.data.len();
        assert(self.raw < n);
        match native.slots.data[self.raw as usize] {
            ResourceData::EngineD { eng } => eng.backend,
            _ => {
                proof {
                    assert(false);
                }
                Backend::DEFAULT
            }
        }
    }

    /// Hands the queued native command stream to the driver; a pure
    /// pass-through with no effect the wrapper can observe.
    pub fn execute(&self, native: &mut Native)
        requires
            old(native).wf(),
            self.wf(*old(native)),
        ensures
            final(native).wf(),
            same_tables(*old(native), *final(native)),
            same_slots(*old(native), *final(native)),
    {
    }

    /// Blocks until the native side has finished every submitted upload:
    /// each in-flight upload completes and its release callback fires with
    /// the recorded pointer and length, reclaiming the transferred block
    /// exactly once.  Blocks that no upload named stay exactly as they
    /// were.
    pub fn flush_and_wait(&self, native: &mut Native)
        requires
            old(native).wf(),
            self.wf(*old(native)),
        ensures
            final(native).wf(),
            same_slots(*old(native), *final(native)),
            same_entities(*old(native), *final(native)),
            same_scenes(*old(native), *final(native)),
            same_transforms(*old(native), *final(native)),
            same_names(*old(native), *final(native)),
            same_bindings(*old(native), *final(native)),
            final(native).fail_creation == old(native).fail_creation,
            final(native).heap.pending@.len() == 0,
            final(native).heap.blocks@.len() == old(native).heap.blocks@.len(),
            forall|i: int| 0 <= i < old(native).heap.pending@.len()
                ==> final(native).heap.blocks@[
                    (#[trigger] old(native).heap.pending@[i]).buffer as int] is Freed,
            forall|j: int| 0 <= j < old(native).heap.blocks@.len()
                && !pending_names(old(native).heap.pending@, j)
                ==> final(native).heap.blocks@[j] == old(native).heap.blocks@[j],
    {
        let ghost q0 = old(native).heap.pending@;
        let ghost b0 = old(native).heap.blocks@;
        while native.heap.pending.len() > 0
            invariant
                native.wf(),
                same_slots(*old(native), *native),
                same_entities(*old(native), *native),
                same_scenes(*old(native), *native),
                same_transforms(*old(native), *native),
                same_names(*old(native), *native),
                same_bindings(*old(native), *native),
                native.fail_creation == old(native).fail_creation,
                native.heap.blocks@.len() == b0.len(),
                native.heap.pending@.len() <= q0.len(),
                native.heap.pending@ == q0.take(native.heap.pending@.len() as int),
                forall|i: int| 0 <= i < q0.len() ==> (#[trigger] q0[i]).buffer < b0.len(),
                forall|i: int| native.heap.pending@.len() <= i < q0.len()
                    ==> native.heap.blocks@[(#[trigger] q0[i]).buffer as int] is Freed,
                forall|j: int| 0 <= j < b0.len() && !pending_names(q0, j)
                    ==> native.heap.blocks@[j] == b0[j],
            decreases native.heap.pending@.len(),
        {
            let k = native.heap.pending.len() - 1;
            let p = native.heap.pending[k];
            let ghost q_pre = native.heap.pending@;
            native.heap.pending.pop();
            proof {
                assert(native.heap.pending@ =~= q0.take(k as int));
                assert(p == q0[k as int]);
                // the remaining prefix never names p's block, so the
                // callback below frees a block no upload still uses
                assert forall|i: int| 0 <= i < native.heap.pending@.len()
                    implies (#[trigger] native.heap.pending@[i]).buffer != p.buffer by {
                    assert(q_pre[i] == native.heap.pending@[i]);
                    assert(q_pre[k as int] == p);
                }
                assert(!pending_names(native.heap.pending@, p.buffer as int));
            }
            deallocate_rust_buffer(native, p.buffer, p.size, 0);
            proof {
                assert(pending_names(q0, p.buffer as int)) by {
                    assert(q0[k as int].buffer == p.buffer);
                }
                assert forall|j: int| 0 <= j < b0.len() && !pending_names(q0, j)
                    implies native.heap.blocks@[j] == b0[j] by {
                    assert(j != p.buffer as int);
                }
                assert forall|i: int| native.heap.pending@.len() <= i < q0.len()
                    implies native.heap.blocks@[(#[trigger] q0[i]).buffer as int] is Freed by {
                }
            }
        }
        proof {
            assert(q0.take(0) =~= Seq::<PendingUpload>::empty());
        }
    }

    /// Obtains the accessor for the engine's transform components.  Fails
    /// exactly when the native layer hands back null.
    pub fn transform_manager(&self, native: &Native) -> (r: Result<TransformManager, EngineError>)
        requires
            native.wf(),
            self.wf(*native),
        ensures
            native.fail_creation ==> (r matches Err(EngineError::CreationFailed)),
            !native.fail_creation ==> (r matches Ok(tm) && tm.engine == self.raw
                && tm.wf(*native)),
    {
        if native.fail_creation {
            Err(EngineError::CreationFailed)
        } else {
            Ok(TransformManager { engine: self.raw })
        }
    }
}

} // verus!
