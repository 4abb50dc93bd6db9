//! Vertex and index buffers, and the buffer-ownership-transfer protocol.
//!
//! A uniquely owned byte block crosses to the native side as a descriptor:
//! the block's index, its byte length, a release callback and an opaque user
//! token.  From that moment the native side is the block's one owner; the
//! block comes back only through the release callback, which reclaims and
//! frees it exactly once, with exactly the pointer and length the descriptor
//! recorded.

use vstd::prelude::*;
use crate::Engine;
use crate::EngineError;
use crate::native::HeapBlock;
use crate::native::Native;
use crate::native::PendingUpload;
use crate::native::ResourceData;
use crate::native::pending_names;
use crate::native::rc_after_handle_clone;
use crate::native::rc_after_handle_release;
use crate::native::rc_after_retain;
use crate::native::destroys_after_handle_release;
use crate::native::same_slots;
use crate::native::same_tables;
use crate::native::same_entities;
use crate::native::same_scenes;
use crate::native::same_transforms;
use crate::native::same_names;
use crate::native::same_bindings;

verus! {

/// The deallocation routine a descriptor names; this layer registers the
/// one that reconstructs the transferred block and frees it.
#[derive(Debug, Clone, Copy, PartialEq, Eq, Structural)]
pub enum ReleaseCallback {
    DeallocateRustBuffer,
}

/// The transferable ownership record for one memory block: where it starts,
/// how long it is, which routine reclaims it, and an opaque token the
/// wrapper itself never reads.
#[derive(Debug, Clone, Copy, PartialEq, Eq, Structural)]
pub struct BufferDescriptor {
    pub buffer: u64,
    pub size: u64,
    pub callback: Option<ReleaseCallback>,
    pub user: u64,
}

/// Hands the uniquely owned block `data` to the native side and returns the
/// descriptor recording it.  The block's one owner is now the native layer;
/// it comes back only through the release callback.  A zero-length block is
/// legal and yields a descriptor of size 0.
pub fn make_buffer_descriptor(native: &mut Native, data: Vec<u8>) -> (desc: BufferDescriptor)
    requires
        old(native).wf(),
        old(native).heap.blocks@.len() < u64::MAX,
    ensures
        final(native).wf(),
        same_slots(*old(native), *final(native)),
        same_entities(*old(native), *final(native)),
        same_scenes(*old(native), *final(native)),
        same_transforms(*old(native), *final(native)),
        same_names(*old(native), *final(native)),
        same_bindings(*old(native), *final(native)),
        final(native).fail_creation == old(native).fail_creation,
        final(native).heap.blocks@ == old(native).heap.blocks@.push(HeapBlock::Held(data)),
        final(native).heap.pending@ == old(native).heap.pending@,
        desc.buffer == old(native).heap.blocks@.len(),
        desc.size == data@.len(),
        desc.callback == Some(ReleaseCallback::DeallocateRustBuffer),
        desc.user == 0,
{
    let buffer = native.heap.blocks.len() as u64;
    let size = data.len() as u64;
    native.heap.blocks.push(HeapBlock::Held(data));
    BufferDescriptor {
        buffer,
        size,
        callback: Some(ReleaseCallback::DeallocateRustBuffer),
        user: 0,
    }
}

/// The release callback: the native side invokes it once per transferred
/// block, when the upload has completed, passing back the recorded pointer
/// and byte length.  It reconstructs the owned block purely to run its
/// destructor, freeing the backing storage; the block is gone for good
/// afterwards.
pub fn deallocate_rust_buffer(native: &mut Native, ptr: u64, size: u64, user: u64)
    requires
        old(native).wf(),
        ptr < old(native).heap.blocks@.len(),
        old(native).heap.blocks@[ptr as int] matches HeapBlock::Held(b) && b@.len() == size,
        !pending_names(old(native).heap.pending@, ptr as int),
    ensures
        final(native).wf(),
        same_slots(*old(native), *final(native)),
        same_entities(*old(native), *final(native)),
        same_scenes(*old(native), *final(native)),
        same_transforms(*old(native), *final(native)),
        same_names(*old(native), *final(native)),
        same_bindings(*old(native), *final(native)),
        final(native).fail_creation == old(native).fail_creation,
        final(native).heap.blocks@
            == old(native).heap.blocks@.update(ptr as int, HeapBlock::Freed),
        final(native).heap.pending@ == old(native).heap.pending@,
{
    let n = native.heap.blocks.len();
    assert(ptr < n);
    let _ = user;
    native.heap.blocks[ptr as usize] = HeapBlock::Freed;
}

/// Law: for every pending upload, the pointer and length the release
/// callback will receive — the ones its descriptor recorded at transfer
/// time — name a block that is still held and match its byte length
/// exactly.
pub proof fn lemma_pending_upload_matches_block(n: Native, i: int)
    requires
        n.wf(),
        0 <= i < n.heap.pending@.len(),
    ensures
        n.heap.pending@[i].buffer < n.heap.blocks@.len(),
        n.heap.blocks@[n.heap.pending@[i].buffer as int] matches HeapBlock::Held(b)
            && b@.len() == n.heap.pending@[i].size,
{
}

/// Law: once a block has been freed by the release callback, no pending
/// upload names it, so the native side never touches that memory again.
pub proof fn lemma_freed_block_not_pending(n: Native, j: int)
    requires
        n.wf(),
        0 <= j < n.heap.blocks@.len(),
        n.heap.blocks@[j] is Freed,
    ensures
        !pending_names(n.heap.pending@, j),
{
}

/// Transfers `data` to the native side and queues it as an in-flight upload
/// for the object `target`: the single finalizing step shared by the buffer
/// and texture data paths.
pub(crate) fn queue_upload(
    native: &mut Native,
    target: u64,
    slot_index: u64,
    byte_offset: u64,
    data: Vec<u8>,
) -> (desc: BufferDescriptor)
    requires
        old(native).wf(),
        old(native).heap.blocks@.len() < u64::MAX,
    ensures
        final(native).wf(),
        same_slots(*old(native), *final(native)),
        same_entities(*old(native), *final(native)),
        same_scenes(*old(native), *final(native)),
        same_transforms(*old(native), *final(native)),
        same_names(*old(native), *final(native)),
        same_bindings(*old(native), *final(native)),
        final(native).fail_creation == old(native).fail_creation,
        final(native).heap.blocks@ == old(native).heap.blocks@.push(HeapBlock::Held(data)),
        desc.buffer == old(native).heap.blocks@.len(),
        desc.size == data@.len(),
        desc.callback == Some(ReleaseCallback::DeallocateRustBuffer),
        desc.user == 0,
        final(native).heap.pending@ == old(native).heap.pending@.push(PendingUpload {
            target,
            buffer: desc.buffer,
            size: desc.size,
            slot_index,
            byte_offset,
        }),
{
    let desc = make_buffer_descriptor(native, data);
    let entry = PendingUpload {
        target,
        buffer: desc.buffer,
        size: desc.size,
        slot_index,
        byte_offset,
    };
    proof {
        assert forall|i: int| 0 <= i < old(native).heap.pending@.len()
            implies (#[trigger] old(native).heap.pending@[i]).buffer
                < old(native).heap.blocks@.len() by {
        }
    }
    native.heap.pending.push(entry);
    desc
}

/// Element type of an index buffer.
#[allow(non_camel_case_types)]
#[derive(Debug, Clone, Copy, PartialEq, Eq, Hash, Structural)]
pub enum IndexType {
    USHORT,
    UINT,
}

/// Which vertex stream an attribute occupies.
#[allow(non_camel_case_types)]
#[derive(Debug, Clone, Copy, PartialEq, Eq, Hash, Structural)]
pub enum VertexAttribute {
    POSITION,
    TANGENTS,
    COLOR,
    UV0,
    UV1,
    BONE_INDICES,
    BONE_WEIGHTS,
}

/// Scalar layout of one vertex attribute.
#[allow(non_camel_case_types)]
#[derive(Debug, Clone, Copy, PartialEq, Eq, Hash, Structural)]
pub enum AttributeType {
    BYTE,
    BYTE2,
    BYTE3,
    BYTE4,
    UBYTE,
    UBYTE2,
    UBYTE3,
    UBYTE4,
    SHORT,
    USHORT,
    INT,
    UINT,
    HALF2,
    HALF4,
    FLOAT,
    FLOAT2,
    FLOAT3,
    FLOAT4,
}

/// One accumulated attribute declaration of a vertex buffer under
/// construction.
#[derive(Debug, Clone, Copy, PartialEq, Eq, Structural)]
pub struct VertexAttributeEntry {
    pub attribute: VertexAttribute,
    pub index: u8,
    pub ty: AttributeType,
    pub offset: u32,
    pub stride: u8,
}

/// What the native side keeps about a vertex buffer.
#[derive(Debug, Clone, Copy, PartialEq, Eq, Structural)]
pub struct VbState {
    pub vertex_count: u32,
    pub buffer_count: u8,
}

/// What the native side keeps about an index buffer.
#[derive(Debug, Clone, Copy, PartialEq, Eq, Structural)]
pub struct IbState {
    pub index_count: u32,
    pub ty: IndexType,
}

/// The vertex buffer state recorded in slot `raw`.
pub open spec fn vertex_buffer_state(n: Native, raw: u64) -> VbState {
    n.slots.data@[raw as int]->VertexBufD_vb
}

/// The index buffer state recorded in slot `raw`.
pub open spec fn index_buffer_state(n: Native, raw: u64) -> IbState {
    n.slots.data@[raw as int]->IndexBufD_ib
}

/// Accumulates the configuration of a vertex buffer and performs one
/// finalizing native construction call.  The builder's transient state is
/// this value itself, held by value, so abandoning the builder releases it
/// with the value, whether or not `build` ran.
pub struct VertexBufferBuilder {
    pub buffer_count: u8,
    pub vertex_count: u32,
    pub attributes: Vec<VertexAttributeEntry>,
    pub normalized_flags: Vec<(VertexAttribute, bool)>,
}

impl VertexBufferBuilder {
    pub fn new() -> (r: Self)
        ensures
            r.buffer_count == 0,
            r.vertex_count == 0,
            r.attributes@ =~= Seq::<VertexAttributeEntry>::empty(),
            r.normalized_flags@ =~= Seq::<(VertexAttribute, bool)>::empty(),
    {
        VertexBufferBuilder {
            buffer_count: 0,
            vertex_count: 0,
            attributes: Vec::new(),
            normalized_flags: Vec::new(),
        }
    }

    pub fn buffer_count(self, count: usize) -> (r: Self)
        requires
            count <= u8::MAX,
        ensures
            r.buffer_count == count,
            r.vertex_count == self.vertex_count,
            r.attributes@ == self.attributes@,
            r.normalized_flags@ == self.normalized_flags@,
    {
        let mut b = self;
        b.buffer_count = count as u8;
        b
    }

    pub fn vertex_count(self, count: usize) -> (r: Self)
        requires
            count <= u32::MAX,
        ensures
            r.vertex_count == count,
            r.buffer_count == self.buffer_count,
            r.attributes@ == self.attributes@,
            r.normalized_flags@ == self.normalized_flags@,
    {
        let mut b = self;
        b.vertex_count = count as u32;
        b
    }

    pub fn attribute(
        self,
        attribute: VertexAttribute,
        index: usize,
        ty: AttributeType,
        offset: usize,
        stride: usize,
    ) -> (r: Self)
        requires
            index <= u8::MAX,
            offset <= u32::MAX,
            stride <= u8::MAX,
        ensures
            r.attributes@ == self.attributes@.push(VertexAttributeEntry {
                attribute,
                index: index as u8,
                ty,
                offset: offset as u32,
                stride: stride as u8,
            }),
            r.buffer_count == self.buffer_count,
            r.vertex_count == self.vertex_count,
            r.normalized_flags@ == self.normalized_flags@,
    {
        let mut b = self;
        b.attributes.push(VertexAttributeEntry {
            attribute,
            index: index as u8,
            ty,
            offset: offset as u32,
            stride: stride as u8,
        });
        b
    }

    pub fn normalized(self, attribute: VertexAttribute, normalized: bool) -> (r: Self)
        ensures
            r.normalized_flags@ == self.normalized_flags@.push((attribute, normalized)),
            r.buffer_count == self.buffer_count,
            r.vertex_count == self.vertex_count,
            r.attributes@ == self.attributes@,
    {
        let mut b = self;
        b.normalized_flags.push((attribute, normalized));
        b
    }

    /// The one finalizing native construction call.  Fails exactly when the
    /// native factory returns null, in which case nothing was created.
    pub fn build(self, native: &mut Native, engine: &Engine) -> (r: Result<VertexBuffer, EngineError>)
        requires
            old(native).wf(),
            engine.wf(*old(native)),
            old(native).slots.slot_count() < u64::MAX,
            old(native).slots.rc@[engine.raw as int] < u64::MAX,
        ensures
            final(native).wf(),
            same_tables(*old(native), *final(native)),
            old(native).fail_creation ==> (r matches Err(EngineError::CreationFailed))
                && same_slots(*old(native), *final(native)),
            !old(native).fail_creation ==> (r matches Ok(vb) && {
                &&& vb.raw == old(native).slots.slot_count()
                &&& vb.engine == engine.raw
                &&& vb.wf(*final(native))
                &&& final(native).slots.rc@ == rc_after_retain(
                    old(native).slots.rc@.push(1u64), engine.raw as int)
                &&& final(native).slots.destroys@ == old(native).slots.destroys@.push(0u64)
                &&& final(native).slots.data@ == old(native).slots.data@.push(
                    ResourceData::VertexBufD { vb: VbState {
                        vertex_count: self.vertex_count,
                        buffer_count: self.buffer_count,
                    } })
                &&& vertex_buffer_state(*final(native), vb.raw).vertex_count == self.vertex_count
                &&& vertex_buffer_state(*final(native), vb.raw).buffer_count == self.buffer_count
            }),
    {
        let raw = native.create_dependent_slot(
            ResourceData::VertexBufD { vb: VbState {
                vertex_count: self.vertex_count,
                buffer_count: self.buffer_count,
            } },
            engine.raw,
        );
        if raw == 0 {
            Err(EngineError::CreationFailed)
        } else {
            Ok(VertexBuffer { raw, engine: engine.raw })
        }
    }
}

/// A reference-counted handle to one native vertex buffer; it keeps its own
/// clone of the engine handle.
#[derive(Debug, PartialEq, Eq, Hash, Structural)]
pub struct VertexBuffer {
    pub raw: u64,
    pub engine: u64,
}

impl VertexBuffer {
    pub open spec fn wf(self, n: Native) -> bool {
        &&& n.slots.live(self.raw)
        &&& n.slots.data@[self.raw as int] is VertexBufD
        &&& n.slots.live(self.engine)
        &&& n.slots.data@[self.engine as int] is EngineD
    }

    /// The identifiers are in range and distinct; all a release needs, so a
    /// handle whose object is already destroyed can still be released.
    pub open spec fn ids_ok(self, n: Native) -> bool {
        &&& 0 < self.raw < n.slots.slot_count()
        &&& 0 < self.engine < n.slots.slot_count()
        &&& self.raw != self.engine
    }

    pub fn builder() -> (r: VertexBufferBuilder)
        ensures
            r.buffer_count == 0,
            r.vertex_count == 0,
            r.attributes@ =~= Seq::<VertexAttributeEntry>::empty(),
            r.normalized_flags@ =~= Seq::<(VertexAttribute, bool)>::empty(),
    {
        VertexBufferBuilder::new()
    }

    /// How many vertices the buffer was created for.
    pub fn vertex_count(&self, native: &Native) -> (r: usize)
        requires
            native.wf(),
            self.wf(*native),
        ensures
            r == vertex_buffer_state(*native, self.raw).vertex_count,
    {
        let n = native.slots.data.len();
        assert(self.raw < n);
        match native.slots.data[self.raw as usize] {
            ResourceData::VertexBufD { vb } => vb.vertex_count as usize,
            _ => {
                proof {
                    assert(false);
                }
                0
            }
        }
    }

    /// Transfers `data` to the native side as the contents of buffer slot
    /// `index` at byte offset `offset`; the upload is in flight until the
    /// engine completes it and fires the release callback.
    pub fn write_at(&self, native: &mut Native, index: usize, offset: usize, data: Vec<u8>)
        requires
            old(native).wf(),
            self.wf(*old(native)),
            index <= u8::MAX,
            offset <= u32::MAX,
            old(native).heap.blocks@.len() < u64::MAX,
        ensures
            final(native).wf(),
            same_slots(*old(native), *final(native)),
            same_entities(*old(native), *final(native)),
            same_scenes(*old(native), *final(native)),
            same_transforms(*old(native), *final(native)),
            same_names(*old(native), *final(native)),
            same_bindings(*old(native), *final(native)),
            final(native).fail_creation == old(native).fail_creation,
            final(native).heap.blocks@ == old(native).heap.blocks@.push(HeapBlock::Held(data)),
            final(native).heap.pending@ == old(native).heap.pending@.push(PendingUpload {
                target: self.raw,
                buffer: old(native).heap.blocks@.len() as u64,
                size: data@.len() as u64,
                slot_index: index as u64,
                byte_offset: offset as u64,
            }),
    {
        let _ = queue_upload(native, self.raw, index as u64, offset as u64, data);
    }

    /// Clones the handle: one more owner of the buffer, and one more owner
    /// of the engine for the clone's own engine reference.
    pub fn clone_handle(&self, native: &mut Native) -> (c: VertexBuffer)
        requires
            old(native).wf(),
            self.wf(*old(native)),
            old(native).slots.rc@[self.raw as int] < u64::MAX,
            old(native).slots.rc@[self.engine as int] < u64::MAX,
        ensures
            final(native).wf(),
            same_tables(*old(native), *final(native)),
            c.raw == self.raw,
            c.engine == self.engine,
            c.wf(*final(native)),
            final(native).slots.rc@ == rc_after_handle_clone(
                old(native).slots.rc@, self.raw as int, self.engine as int),
            final(native).slots.destroys@ == old(native).slots.destroys@,
            final(native).slots.data@ == old(native).slots.data@,
    {
        proof {
            assert(self.raw != self.engine);
        }
        native.retain_pair(self.raw, self.engine);
        VertexBuffer { raw: self.raw, engine: self.engine }
    }

    /// Releases the handle: the buffer is destroyed exactly when this was
    /// its last owner, and the engine clone the handle kept is released
    /// afterwards.
    pub fn release(self, native: &mut Native)
        requires
            old(native).wf(),
            self.ids_ok(*old(native)),
        ensures
            final(native).wf(),
            same_tables(*old(native), *final(native)),
            final(native).slots.rc@ == rc_after_handle_release(
                old(native).slots.rc@, self.raw as int, self.engine as int),
            final(native).slots.destroys@ == destroys_after_handle_release(
                old(native).slots.rc@, old(native).slots.destroys@,
                self.raw as int, self.engine as int),
            final(native).slots.data@ == old(native).slots.data@,
            old(native).slots.rc@[self.raw as int] == 1
                ==> final(native).slots.destroys@[self.raw as int]
                    == old(native).slots.destroys@[self.raw as int] + 1,
            old(native).slots.rc@[self.raw as int] != 1
                ==> final(native).slots.destroys@[self.raw as int]
                    == old(native).slots.destroys@[self.raw as int],
    {
        native.release_pair(self.raw, self.engine);
    }
}

/// Accumulates the configuration of an index buffer and performs one
/// finalizing native construction call.  The builder's transient state is
/// this value itself, held by value, so abandoning the builder releases it
/// with the value, whether or not `build` ran.
pub struct IndexBufferBuilder {
    pub index_count: u32,
    pub ty: IndexType,
}

impl IndexBufferBuilder {
    pub fn new() -> (r: Self)
        ensures
            r.index_count == 0,
            r.ty == IndexType::UINT,
    {
        IndexBufferBuilder { index_count: 0, ty: IndexType::UINT }
    }

    pub fn index_count(self, count: usize) -> (r: Self)
        requires
            count <= u32::MAX,
        ensures
            r.index_count == count,
            r.ty == self.ty,
    {
        let mut b = self;
        b.index_count = count as u32;
        b
    }

    pub fn ty(self, ty: IndexType) -> (r: Self)
        ensures
            r.ty == ty,
            r.index_count == self.index_count,
    {
        let mut b = self;
        b.ty = ty;
        b
    }

    /// The one finalizing native construction call.  Fails exactly when the
    /// native factory returns null, in which case nothing was created.
    pub fn build(self, native: &mut Native, engine: &Engine) -> (r: Result<IndexBuffer, EngineError>)
        requires
            old(native).wf(),
            engine.wf(*old(native)),
            old(native).slots.slot_count() < u64::MAX,
            old(native).slots.rc@[engine.raw as int] < u64::MAX,
        ensures
            final(native).wf(),
            same_tables(*old(native), *final(native)),
            old(native).fail_creation ==> (r matches Err(EngineError::CreationFailed))
                && same_slots(*old(native), *final(native)),
            !old(native).fail_creation ==> (r matches Ok(ib) && {
                &&& ib.raw == old(native).slots.slot_count()
                &&& ib.engine == engine.raw
                &&& ib.wf(*final(native))
                &&& final(native).slots.rc@ == rc_after_retain(
                    old(native).slots.rc@.push(1u64), engine.raw as int)
                &&& final(native).slots.destroys@ == old(native).slots.destroys@.push(0u64)
                &&& final(native).slots.data@ == old(native).slots.data@.push(
                    ResourceData::IndexBufD { ib: IbState {
                        index_count: self.index_count,
                        ty: self.ty,
                    } })
                &&& index_buffer_state(*final(native), ib.raw).index_count == self.index_count
                &&& index_buffer_state(*final(native), ib.raw).ty == self.ty
            }),
    {
        let raw = native.create_dependent_slot(
            ResourceData::IndexBufD { ib: IbState {
                index_count: self.index_count,
                ty: self.ty,
            } },
            engine.raw,
        );
        if raw == 0 {
            Err(EngineError::CreationFailed)
        } else {
            Ok(IndexBuffer { raw, engine: engine.raw })
        }
    }
}

/// A reference-counted handle to one native index buffer; it keeps its own
/// clone of the engine handle.
#[derive(Debug, PartialEq, Eq, Hash, Structural)]
pub struct IndexBuffer {
    pub raw: u64,
    pub engine: u64,
}

impl IndexBuffer {
    pub open spec fn wf(self, n: Native) -> bool {
        &&& n.slots.live(self.raw)
        &&& n.slots.data@[self.raw as int] is IndexBufD
        &&& n.slots.live(self.engine)
        &&& n.slots.data@[self.engine as int] is EngineD
    }

    /// The identifiers are in range and distinct; all a release needs.
    pub open spec fn ids_ok(self, n: Native) -> bool {
        &&& 0 < self.raw < n.slots.slot_count()
        &&& 0 < self.engine < n.slots.slot_count()
        &&& self.raw != self.engine
    }

    pub fn builder() -> (r: IndexBufferBuilder)
        ensures
            r.index_count == 0,
            r.ty == IndexType::UINT,
    {
        IndexBufferBuilder::new()
    }

    /// How many indices the buffer was created for.
    pub fn index_count(&self, native: &Native) -> (r: usize)
        requires
            native.wf(),
            self.wf(*native),
        ensures
            r == index_buffer_state(*native, self.raw).index_count,
    {
        let n = native.slots.data.len();
        assert(self.raw < n);
        match native.slots.data[self.raw as usize] {
            ResourceData::IndexBufD { ib } => ib.index_count as usize,
            _ => {
                proof {
                    assert(false);
                }
                0
            }
        }
    }

    /// Transfers `data` to the native side as the buffer's contents at
    /// element offset `offset`; the upload is in flight until the engine
    /// completes it and fires the release callback.
    pub fn write(&self, native: &mut Native, offset: usize, data: Vec<u8>)
        requires
            old(native).wf(),
            self.wf(*old(native)),
            offset <= u32::MAX,
            old(native).heap.blocks@.len() < u64::MAX,
        ensures
            final(native).wf(),
            same_slots(*old(native), *final(native)),
            same_entities(*old(native), *final(native)),
            same_scenes(*old(native), *final(native)),
            same_transforms(*old(native), *final(native)),
            same_names(*old(native), *final(native)),
            same_bindings(*old(native), *final(native)),
            final(native).fail_creation == old(native).fail_creation,
            final(native).heap.blocks@ == old(native).heap.blocks@.push(HeapBlock::Held(data)),
            final(native).heap.pending@ == old(native).heap.pending@.push(PendingUpload {
                target: self.raw,
                buffer: old(native).heap.blocks@.len() as u64,
                size: data@.len() as u64,
                slot_index: 0,
                byte_offset: offset as u64,
            }),
    {
        let _ = queue_upload(native, self.raw, 0, offset as u64, data);
    }

    /// Clones the handle: one more owner of the buffer, and one more owner
    /// of the engine for the clone's own engine reference.
    pub fn clone_handle(&self, native: &mut Native) -> (c: IndexBuffer)
        requires
            old(native).wf(),
            self.wf(*old(native)),
            old(native).slots.rc@[self.raw as int] < u64::MAX,
            old(native).slots.rc@[self.engine as int] < u64::MAX,
        ensures
            final(native).wf(),
            same_tables(*old(native), *final(native)),
            c.raw == self.raw,
            c.engine == self.engine,
            c.wf(*final(native)),
            final(native).slots.rc@ == rc_after_handle_clone(
                old(native).slots.rc@, self.raw as int, self.engine as int),
            final(native).slots.destroys@ == old(native).slots.destroys@,
            final(native).slots.data@ == old(native).slots.data@,
    {
        proof {
            assert(self.raw != self.engine);
        }
        native.retain_pair(self.raw, self.engine);
        IndexBuffer { raw: self.raw, engine: self.engine }
    }

    /// Releases the handle: the buffer is destroyed exactly when this was
    /// its last owner, and the engine clone the handle kept is released
    /// afterwards.
    pub fn release(self, native: &mut Native)
        requires
            old(native).wf(),
            self.ids_ok(*old(native)),
        ensures
            final(native).wf(),
            same_tables(*old(native), *final(native)),
            final(native).slots.rc@ == rc_after_handle_release(
                old(native).slots.rc@, self.raw as int, self.engine as int),
            final(native).slots.destroys@ == destroys_after_handle_release(
                old(native).slots.rc@, old(native).slots.destroys@,
                self.raw as int, self.engine as int),
            final(native).slots.data@ == old(native).slots.data@,
            old(native).slots.rc@[self.raw as int] == 1
                ==> final(native).slots.destroys@[self.raw as int]
                    == old(native).slots.destroys@[self.raw as int] + 1,
            old(native).slots.rc@[self.raw as int] != 1
                ==> final(native).slots.destroys@[self.raw as int]
                    == old(native).slots.destroys@[self.raw as int],
    {
        native.release_pair(self.raw, self.engine);
    }
}

} // verus!
