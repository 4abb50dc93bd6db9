//! The native engine side, held as an explicit registry.
//!
//! Every native object the wrapper can create occupies one slot of a
//! [`Native`] registry value, identified by a non-zero `u64` raw handle
//! (0 is the null handle).  A slot carries the object's current reference
//! count, the number of native destroy calls issued for it, and the plain
//! values the wrapper can observe about the object.  The registry is passed
//! explicitly to every operation, so each contract states exactly how the
//! native side changes — including that a destroy call is issued at most
//! once per object, and only by the last owner.

use vstd::prelude::*;
use crate::Entity;
use crate::Backend;
use crate::buffers::VbState;
use crate::buffers::IbState;
use crate::camera::CamState;
use crate::renderer::RenState;
use crate::swapchain::SwapState;
use crate::view::ViewState;
use crate::texture::TexState;
use crate::texture::TextureSampler;
use crate::material::MatState;

verus! {

/// Native-side record of an engine instance.
#[derive(Debug, Clone, Copy, PartialEq, Eq, Structural)]
pub struct EngineState {
    pub backend: Backend,
}

/// What a registry slot holds: the kind of native object, with the plain
/// values the wrapper can observe about it.  Variants are added next to the
/// modules that create them.
#[derive(Debug, Clone, Copy)]
pub enum ResourceData {
    /// Slot 0 only: the null handle.
    NullD,
    EngineD { eng: EngineState },
    VertexBufD { vb: VbState },
    IndexBufD { ib: IbState },
    SceneD,
    CameraD { cam: CamState },
    RendererD { ren: RenState },
    SwapChainD { sc: SwapState },
    ViewD { v: ViewState },
    TextureD { tex: TexState },
    MaterialD { mat: MatState },
    MaterialInstD,
    /// Transient native builder state of a renderable under construction.
    ProxyD,
}

/// The slots of the registry: three parallel columns, indexed by raw handle.
pub struct SlotTable {
    /// Current reference count; 0 means not live (never created, or destroyed).
    pub rc: Vec<u64>,
    /// How many native destroy calls have been issued for the slot.
    pub destroys: Vec<u64>,
    /// What the slot holds.
    pub data: Vec<ResourceData>,
}

impl SlotTable {
    /// Number of slots, the null slot included.
    pub open spec fn slot_count(self) -> int {
        self.rc@.len() as int
    }

    /// The raw handle names a slot whose object is currently alive.
    pub open spec fn live(self, raw: u64) -> bool {
        &&& 0 < raw < self.rc@.len()
        &&& self.rc@[raw as int] > 0
    }

    /// Well-formedness: the columns agree, slot 0 is the never-created null
    /// slot, no slot has been destroyed twice, and no live slot has been
    /// destroyed at all.
    pub open spec fn wf(self) -> bool {
        &&& self.destroys@.len() == self.rc@.len()
        &&& self.data@.len() == self.rc@.len()
        &&& self.rc@.len() >= 1
        &&& self.rc@[0] == 0
        &&& self.destroys@[0] == 0
        &&& self.data@[0] is NullD
        &&& forall|i: int| 0 <= i < self.rc@.len() ==> #[trigger] self.destroys@[i] <= 1
        &&& forall|i: int| 0 <= i < self.rc@.len() ==> ((#[trigger] self.rc@[i]) > 0 ==> self.destroys@[i] == 0)
    }
}

/// The reference-count column after one clone of the handle `raw`.
pub open spec fn rc_after_retain(rc: Seq<u64>, raw: int) -> Seq<u64> {
    rc.update(raw, (rc[raw] + 1) as u64)
}

/// The reference-count column after one release of the handle `raw`: the
/// last owner leaves the count at zero; releasing an already-dead slot is a
/// no-op; any other owner just steps down.
pub open spec fn rc_after_release(rc: Seq<u64>, raw: int) -> Seq<u64> {
    if rc[raw] <= 1 {
        rc.update(raw, 0u64)
    } else {
        rc.update(raw, (rc[raw] - 1) as u64)
    }
}

/// The destroy column after one release of the handle `raw`: the native
/// destroy call is issued exactly when the releasing owner was the last one.
pub open spec fn destroys_after_release(rc: Seq<u64>, ds: Seq<u64>, raw: int) -> Seq<u64> {
    if rc[raw] == 1 {
        ds.update(raw, (ds[raw] + 1) as u64)
    } else {
        ds
    }
}

/// The reference-count column after cloning a dependent handle: both its own
/// slot and the engine clone it keeps step up by one.
pub open spec fn rc_after_handle_clone(rc: Seq<u64>, raw: int, eng: int) -> Seq<u64> {
    rc_after_retain(rc_after_retain(rc, raw), eng)
}

/// The reference-count column after releasing a dependent handle: its own
/// slot steps down first, then the engine clone it kept.
pub open spec fn rc_after_handle_release(rc: Seq<u64>, raw: int, eng: int) -> Seq<u64> {
    rc_after_release(rc_after_release(rc, raw), eng)
}

/// The destroy column after releasing a dependent handle: the object is
/// destroyed if the handle was its last owner, and the engine afterwards if
/// that engine clone was the engine's last owner.
pub open spec fn destroys_after_handle_release(rc: Seq<u64>, ds: Seq<u64>, raw: int, eng: int) -> Seq<u64> {
    destroys_after_release(
        rc_after_release(rc, raw),
        destroys_after_release(rc, ds, raw),
        eng,
    )
}

/// Some pending upload still names block `j`.
pub open spec fn pending_names(pending: Seq<PendingUpload>, j: int) -> bool {
    exists|i: int| 0 <= i < pending.len() && (#[trigger] pending[i]).buffer == j
}

/// The entity registry: dense identifiers starting at 1; identity 0 is the
/// null entity and is never allocated.
pub struct EntityTable {
    /// `alive[i]` holds for the entity with identity `i + 1` while it exists.
    pub alive: Vec<bool>,
    /// `renderable[i]` holds once a renderable has been built on entity `i + 1`.
    pub renderable: Vec<bool>,
}

impl EntityTable {
    pub open spec fn wf(self) -> bool {
        &&& self.renderable@.len() == self.alive@.len()
        &&& self.alive@.len() <= u32::MAX - 1
    }
}

/// Scene membership as a flat relation: one row per (scene, entity) pair.
pub struct SceneTable {
    pub members: Vec<(u64, Entity)>,
}

impl SceneTable {
    /// Well-formedness: a scene holds an entity at most once.
    pub open spec fn wf(self) -> bool {
        forall|i: int, j: int|
            0 <= i < j < self.members@.len() ==> #[trigger] self.members@[i] != #[trigger] self.members@[j]
    }

    pub open spec fn has(self, scene: u64, e: Entity) -> bool {
        member_has(self.members@, scene, e)
    }
}

/// `scene` holds entity `e` in the membership relation `members`.
pub open spec fn member_has(members: Seq<(u64, Entity)>, scene: u64, e: Entity) -> bool {
    exists|i: int| 0 <= i < members.len() && members[i] == (scene, e)
}

/// How many rows of `members` belong to `scene`.
pub open spec fn scene_member_count(members: Seq<(u64, Entity)>, scene: u64) -> int
    decreases members.len(),
{
    if members.len() == 0 {
        0
    } else {
        scene_member_count(members.drop_last(), scene)
            + if members.last().0 == scene { 1int } else { 0int }
    }
}

pub proof fn lemma_scene_member_count_push(members: Seq<(u64, Entity)>, scene: u64, row: (u64, Entity))
    ensures
        scene_member_count(members.push(row), scene)
            == scene_member_count(members, scene) + if row.0 == scene { 1int } else { 0int },
{
    assert(members.push(row).drop_last() =~= members);
}

pub proof fn lemma_scene_member_count_remove(members: Seq<(u64, Entity)>, scene: u64, k: int)
    requires
        0 <= k < members.len(),
    ensures
        scene_member_count(members.remove(k), scene)
            == scene_member_count(members, scene) - if members[k].0 == scene { 1int } else { 0int },
    decreases members.len(),
{
    if k == members.len() - 1 {
        assert(members.remove(k) =~= members.drop_last());
    } else {
        let shorter = members.drop_last();
        lemma_scene_member_count_remove(shorter, scene, k);
        assert(members.remove(k).drop_last() =~= shorter.remove(k));
        assert(members.remove(k).last() == members.last());
    }
}

pub proof fn lemma_scene_member_count_nonnegative(members: Seq<(u64, Entity)>, scene: u64)
    ensures
        scene_member_count(members, scene) >= 0,
    decreases members.len(),
{
    if members.len() > 0 {
        lemma_scene_member_count_nonnegative(members.drop_last(), scene);
    }
}

/// Transform components: one row per entity that has one, holding a
/// column-major matrix as the bit patterns of its sixteen entries.
pub struct TransformTable {
    pub rows: Vec<(u32, [u32; 16])>,
}

impl TransformTable {
    /// Well-formedness: one row per entity, and row numbers leave room for
    /// the 1-based instance identifiers handed out to callers.
    pub open spec fn wf(self) -> bool {
        &&& self.rows@.len() <= u32::MAX - 1
        &&& forall|i: int, j: int|
            0 <= i < j < self.rows@.len() ==> #[trigger] self.rows@[i].0 != #[trigger] self.rows@[j].0
    }

    pub open spec fn has_entity(self, id: u32) -> bool {
        exists|i: int| 0 <= i < self.rows@.len() && self.rows@[i].0 == id
    }
}

/// Texture parameters bound on material instances: an append-only record of
/// what was handed to the native side, one row per bind call.
pub struct BindingTable {
    pub rows: Vec<(u64, String, u64, TextureSampler)>,
}

/// Debug names assigned to views: one row per named view.
pub struct NameTable {
    pub rows: Vec<(u64, String)>,
}

impl NameTable {
    pub open spec fn wf(self) -> bool {
        forall|i: int, j: int|
            0 <= i < j < self.rows@.len() ==> #[trigger] self.rows@[i].0 != #[trigger] self.rows@[j].0
    }
}

/// One memory block whose ownership has crossed to the native side: held
/// until the release callback reclaims it, then freed for good.
pub enum HeapBlock {
    Held(Vec<u8>),
    Freed,
}

/// A buffer handed to the native side whose upload has not completed yet.
/// The release callback has not fired for it.
#[derive(Debug, Clone, Copy, PartialEq, Eq, Structural)]
pub struct PendingUpload {
    /// Raw handle of the buffer or texture the data is destined for.
    pub target: u64,
    /// Index of the transferred block, as recorded in its descriptor.
    pub buffer: u64,
    /// Byte length, as recorded in its descriptor.
    pub size: u64,
    /// Buffer slot index or mip level the native call named.
    pub slot_index: u64,
    /// Byte or element offset the native call named.
    pub byte_offset: u64,
}

/// Blocks transferred to the native side, and the uploads still in flight.
pub struct HeapTable {
    pub blocks: Vec<HeapBlock>,
    pub pending: Vec<PendingUpload>,
}

impl HeapTable {
    /// Well-formedness: every pending upload names a block that is still
    /// held, its recorded length matches the block, and no two pending
    /// uploads name the same block — so firing each release callback once
    /// frees each block exactly once.
    pub open spec fn wf(self) -> bool {
        &&& forall|i: int| 0 <= i < self.pending@.len()
            ==> (#[trigger] self.pending@[i]).buffer < self.blocks@.len()
        &&& forall|i: int| 0 <= i < self.pending@.len()
            ==> ((#[trigger] self.blocks@[self.pending@[i].buffer as int]) matches HeapBlock::Held(b)
                && b@.len() == self.pending@[i].size)
        &&& forall|i: int, j: int|
            0 <= i < j < self.pending@.len()
                ==> (#[trigger] self.pending@[i]).buffer != (#[trigger] self.pending@[j]).buffer
    }
}

/// The modeled native side: the object registry, the entity registry, the
/// per-component tables, and the transferred memory blocks.  A `fail_creation`
/// flag stands in for a native layer whose factories return null.
pub struct Native {
    /// When set, every native factory call returns the null handle.
    pub fail_creation: bool,
    pub slots: SlotTable,
    pub entities: EntityTable,
    pub scenes: SceneTable,
    pub transforms: TransformTable,
    pub names: NameTable,
    pub bindings: BindingTable,
    pub heap: HeapTable,
}

/// The registry columns outside the slot table are the same in `a` and `b`.
pub open spec fn same_tables(a: Native, b: Native) -> bool {
    &&& a.fail_creation == b.fail_creation
    &&& same_entities(a, b)
    &&& same_scenes(a, b)
    &&& same_transforms(a, b)
    &&& same_names(a, b)
    &&& same_bindings(a, b)
    &&& same_heap(a, b)
}

pub open spec fn same_slots(a: Native, b: Native) -> bool {
    &&& a.slots.rc@ == b.slots.rc@
    &&& a.slots.destroys@ == b.slots.destroys@
    &&& a.slots.data@ == b.slots.data@
}

pub open spec fn same_entities(a: Native, b: Native) -> bool {
    &&& a.entities.alive@ == b.entities.alive@
    &&& a.entities.renderable@ == b.entities.renderable@
}

pub open spec fn same_scenes(a: Native, b: Native) -> bool {
    a.scenes.members@ == b.scenes.members@
}

pub open spec fn same_transforms(a: Native, b: Native) -> bool {
    a.transforms.rows@ == b.transforms.rows@
}

pub open spec fn same_names(a: Native, b: Native) -> bool {
    a.names.rows@ == b.names.rows@
}

pub open spec fn same_bindings(a: Native, b: Native) -> bool {
    a.bindings.rows@ == b.bindings.rows@
}

pub open spec fn same_heap(a: Native, b: Native) -> bool {
    &&& a.heap.blocks@ == b.heap.blocks@
    &&& a.heap.pending@ == b.heap.pending@
}

impl Native {
    pub open spec fn wf(self) -> bool {
        &&& self.slots.wf()
        &&& self.entities.wf()
        &&& self.scenes.wf()
        &&& self.transforms.wf()
        &&& self.names.wf()
        &&& self.heap.wf()
    }

    /// A fresh native layer: no objects, no entities, no transferred blocks.
    pub fn new() -> (n: Native)
        ensures
            n.wf(),
            !n.fail_creation,
            n.slots.rc@ =~= seq![0u64],
            n.slots.destroys@ =~= seq![0u64],
            n.slots.data@ =~= seq![ResourceData::NullD],
            n.entities.alive@ =~= Seq::<bool>::empty(),
            n.entities.renderable@ =~= Seq::<bool>::empty(),
            n.scenes.members@ =~= Seq::<(u64, Entity)>::empty(),
            n.transforms.rows@ =~= Seq::<(u32, [u32; 16])>::empty(),
            n.names.rows@ =~= Seq::<(u64, String)>::empty(),
            n.bindings.rows@ =~= Seq::<(u64, String, u64, TextureSampler)>::empty(),
            n.heap.blocks@ =~= Seq::<HeapBlock>::empty(),
            n.heap.pending@ =~= Seq::<PendingUpload>::empty(),
    {
        let mut rc: Vec<u64> = Vec::new();
        let mut destroys: Vec<u64> = Vec::new();
        let mut data: Vec<ResourceData> = Vec::new();
        rc.push(0);
        destroys.push(0);
        data.push(ResourceData::NullD);
        Native {
            fail_creation: false,
            slots: SlotTable { rc, destroys, data },
            entities: EntityTable { alive: Vec::new(), renderable: Vec::new() },
            scenes: SceneTable { members: Vec::new() },
            transforms: TransformTable { rows: Vec::new() },
            names: NameTable { rows: Vec::new() },
            bindings: BindingTable { rows: Vec::new() },
            heap: HeapTable { blocks: Vec::new(), pending: Vec::new() },
        }
    }

    /// One native factory call: on success a fresh slot with reference count
    /// 1 holding `d`; under a failing native layer, the null handle and no
    /// change at all.
    pub fn create_slot(&mut self, d: ResourceData) -> (raw: u64)
        requires
            old(self).wf(),
            old(self).slots.slot_count() < u64::MAX,
        ensures
            final(self).wf(),
            same_tables(*old(self), *final(self)),
            old(self).fail_creation ==> raw == 0 && same_slots(*old(self), *final(self)),
            !old(self).fail_creation ==> ({
                &&& raw == old(self).slots.slot_count()
                &&& raw > 0
                &&& final(self).slots.rc@ == old(self).slots.rc@.push(1u64)
                &&& final(self).slots.destroys@ == old(self).slots.destroys@.push(0u64)
                &&& final(self).slots.data@ == old(self).slots.data@.push(d)
                &&& final(self).slots.live(raw)
            }),
    {
        if self.fail_creation {
            return 0;
        }
        let raw = self.slots.rc.len() as u64;
        self.slots.rc.push(1);
        self.slots.destroys.push(0);
        self.slots.data.push(d);
        raw
    }

    /// One clone of the handle `raw`: its reference count steps up by one.
    /// Relies on the count being shared atomically, so concurrent clones
    /// cannot race the exclusivity check at release time.
    pub fn retain_raw(&mut self, raw: u64)
        requires
            old(self).wf(),
            old(self).slots.live(raw),
            old(self).slots.rc@[raw as int] < u64::MAX,
        ensures
            final(self).wf(),
            same_tables(*old(self), *final(self)),
            final(self).slots.rc@ == rc_after_retain(old(self).slots.rc@, raw as int),
            final(self).slots.destroys@ == old(self).slots.destroys@,
            final(self).slots.data@ == old(self).slots.data@,
    {
        let n = self.slots.rc.len();
        assert(raw < n);
        let i = raw as usize;
        let c = self.slots.rc[i];
        self.slots.rc[i] = c + 1;
    }

    /// One release of the handle `raw`.  The owner that observes itself to
    /// be the last one — count exactly 1 — issues the native destroy call;
    /// every other release, including one on an already-destroyed slot,
    /// issues none.
    pub fn release_raw(&mut self, raw: u64)
        requires
            old(self).wf(),
            0 < raw < old(self).slots.slot_count(),
        ensures
            final(self).wf(),
            same_tables(*old(self), *final(self)),
            final(self).slots.rc@ == rc_after_release(old(self).slots.rc@, raw as int),
            final(self).slots.destroys@
                == destroys_after_release(old(self).slots.rc@, old(self).slots.destroys@, raw as int),
            final(self).slots.data@ == old(self).slots.data@,
            old(self).slots.rc@[raw as int] == 1
                ==> final(self).slots.destroys@[raw as int] == old(self).slots.destroys@[raw as int] + 1,
            old(self).slots.rc@[raw as int] != 1
                ==> final(self).slots.destroys@ == old(self).slots.destroys@,
    {
        let n = self.slots.rc.len();
        assert(raw < n);
        let i = raw as usize;
        let c = self.slots.rc[i];
        if c == 1 {
            self.slots.rc[i] = 0;
            let d = self.slots.destroys[i];
            self.slots.destroys[i] = d + 1;
        } else if c > 1 {
            self.slots.rc[i] = c - 1;
        } else {
            proof {
                assert(self.slots.rc@ =~= rc_after_release(old(self).slots.rc@, raw as int));
            }
        }
    }
    /// One dependent-resource factory call: on success a fresh slot with
    /// reference count 1 holding `d`, plus one more owner of the engine —
    /// the clone the new handle keeps; under a failing native layer, the
    /// null handle and no change at all.
    pub fn create_dependent_slot(&mut self, d: ResourceData, eng: u64) -> (raw: u64)
        requires
            old(self).wf(),
            old(self).slots.slot_count() < u64::MAX,
            old(self).slots.live(eng),
            old(self).slots.rc@[eng as int] < u64::MAX,
        ensures
            final(self).wf(),
            same_tables(*old(self), *final(self)),
            old(self).fail_creation ==> raw == 0 && same_slots(*old(self), *final(self)),
            !old(self).fail_creation ==> ({
                &&& raw == old(self).slots.slot_count()
                &&& raw > 0
                &&& final(self).slots.rc@
                    == rc_after_retain(old(self).slots.rc@.push(1u64), eng as int)
                &&& final(self).slots.destroys@ == old(self).slots.destroys@.push(0u64)
                &&& final(self).slots.data@ == old(self).slots.data@.push(d)
                &&& final(self).slots.live(raw)
                &&& final(self).slots.live(eng)
            }),
    {
        let raw = self.create_slot(d);
        if raw != 0 {
            self.retain_raw(eng);
        }
        raw
    }

    /// Clones a dependent handle: one more owner of the object, and one more
    /// owner of the engine for the clone's own engine reference.
    pub fn retain_pair(&mut self, raw: u64, eng: u64)
        requires
            old(self).wf(),
            old(self).slots.live(raw),
            old(self).slots.live(eng),
            raw != eng,
            old(self).slots.rc@[raw as int] < u64::MAX,
            old(self).slots.rc@[eng as int] < u64::MAX,
        ensures
            final(self).wf(),
            same_tables(*old(self), *final(self)),
            final(self).slots.rc@ == rc_after_handle_clone(old(self).slots.rc@, raw as int, eng as int),
            final(self).slots.destroys@ == old(self).slots.destroys@,
            final(self).slots.data@ == old(self).slots.data@,
    {
        self.retain_raw(raw);
        self.retain_raw(eng);
    }

    /// Releases a dependent handle: the object first, then the engine clone
    /// the handle kept.  Each of the two destroy calls is issued exactly
    /// when that release finds the respective count at one.
    pub fn release_pair(&mut self, raw: u64, eng: u64)
        requires
            old(self).wf(),
            0 < raw < old(self).slots.slot_count(),
            0 < eng < old(self).slots.slot_count(),
            raw != eng,
        ensures
            final(self).wf(),
            same_tables(*old(self), *final(self)),
            final(self).slots.rc@ == rc_after_handle_release(old(self).slots.rc@, raw as int, eng as int),
            final(self).slots.destroys@ == destroys_after_handle_release(
                old(self).slots.rc@, old(self).slots.destroys@, raw as int, eng as int),
            final(self).slots.data@ == old(self).slots.data@,
            old(self).slots.rc@[raw as int] == 1
                ==> final(self).slots.destroys@[raw as int]
                    == old(self).slots.destroys@[raw as int] + 1,
            old(self).slots.rc@[raw as int] != 1
                ==> final(self).slots.destroys@[raw as int]
                    == old(self).slots.destroys@[raw as int],
            old(self).slots.rc@[eng as int] == 1
                ==> final(self).slots.destroys@[eng as int]
                    == old(self).slots.destroys@[eng as int] + 1,
            old(self).slots.rc@[eng as int] != 1
                ==> final(self).slots.destroys@[eng as int]
                    == old(self).slots.destroys@[eng as int],
    {
        self.release_raw(raw);
        self.release_raw(eng);
    }
}

/// Law: cloning a handle and then releasing both clones issues exactly one
/// native destroy call for its object — never zero, never two.  The first
/// release sees another owner and issues none; the second is the last owner
/// and issues the one destroy call.
pub proof fn lemma_clone_then_release_both_destroys_once(rc: Seq<u64>, ds: Seq<u64>, raw: int)
    requires
        0 <= raw < rc.len(),
        ds.len() == rc.len(),
        rc[raw] == 1,
        ds[raw] == 0,
    ensures
        ({
            let rc1 = rc_after_retain(rc, raw);
            let rc2 = rc_after_release(rc1, raw);
            let ds2 = destroys_after_release(rc1, ds, raw);
            let ds3 = destroys_after_release(rc2, ds2, raw);
            &&& ds2[raw] == 0
            &&& ds3[raw] == 1
            &&& rc_after_release(rc2, raw)[raw] == 0
        }),
{
}

/// Law: releasing a handle whose reference count is already at one, twice in
/// sequence, issues the native destroy call once, not twice — the second
/// release finds the count at zero and does nothing.
pub proof fn lemma_release_after_destroy_is_noop(rc: Seq<u64>, ds: Seq<u64>, raw: int)
    requires
        0 <= raw < rc.len(),
        ds.len() == rc.len(),
        rc[raw] == 1,
        ds[raw] == 0,
    ensures
        ({
            let rc1 = rc_after_release(rc, raw);
            let ds1 = destroys_after_release(rc, ds, raw);
            let rc2 = rc_after_release(rc1, raw);
            let ds2 = destroys_after_release(rc1, ds1, raw);
            &&& ds1[raw] == 1
            &&& ds2 == ds1
            &&& ds2[raw] == 1
        }),
{
}

} // verus!
