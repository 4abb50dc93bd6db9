//! The buffer-ownership-transfer protocol: descriptors record the block
//! exactly, the release callback fires once per block with the recorded
//! pointer and length, and freed blocks are never touched again.

use filament::Backend;
use filament::Engine;
use filament::IndexBuffer;
use filament::VertexBuffer;
use filament::buffers::make_buffer_descriptor;
use filament::buffers::deallocate_rust_buffer;
use filament::buffers::ReleaseCallback;
use filament::native::HeapBlock;
use filament::native::Native;

#[test]
fn descriptor_records_pointer_and_length() {
    let mut native = Native::new();
    let desc = make_buffer_descriptor(&mut native, vec![1u8, 2, 3, 4, 5]);
    assert_eq!(desc.buffer, 0);
    assert_eq!(desc.size, 5);
    assert_eq!(desc.user, 0);
    assert!(matches!(desc.callback, Some(ReleaseCallback::DeallocateRustBuffer)));
    match &native.heap.blocks[0] {
        HeapBlock::Held(bytes) => assert_eq!(bytes.as_slice(), &[1u8, 2, 3, 4, 5]),
        HeapBlock::Freed => panic!("block freed before the callback fired"),
    }
}

#[test]
fn release_callback_frees_block_exactly_once() {
    let mut native = Native::new();
    let desc = make_buffer_descriptor(&mut native, vec![7u8; 16]);
    deallocate_rust_buffer(&mut native, desc.buffer, desc.size, desc.user);
    assert!(matches!(native.heap.blocks[desc.buffer as usize], HeapBlock::Freed));
}

#[test]
fn zero_length_transfer_succeeds() {
    let mut native = Native::new();
    let desc = make_buffer_descriptor(&mut native, Vec::new());
    assert_eq!(desc.size, 0);
    deallocate_rust_buffer(&mut native, desc.buffer, 0, desc.user);
    assert!(matches!(native.heap.blocks[desc.buffer as usize], HeapBlock::Freed));
}

#[test]
fn flush_fires_release_callback_with_recorded_values() {
    let mut native = Native::new();
    let engine = Engine::new(&mut native, Backend::NOOP).unwrap();
    let vb = VertexBuffer::builder()
        .vertex_count(3)
        .buffer_count(1)
        .build(&mut native, &engine)
        .unwrap();
    vb.write_at(&mut native, 0, 0, vec![9u8, 8, 7]);
    assert_eq!(native.heap.pending.len(), 1);
    let recorded = native.heap.pending[0];
    assert_eq!(recorded.target, vb.raw);
    assert_eq!(recorded.size, 3);
    engine.flush_and_wait(&mut native);
    assert_eq!(native.heap.pending.len(), 0);
    assert!(matches!(native.heap.blocks[recorded.buffer as usize], HeapBlock::Freed));
}

#[test]
fn flush_frees_each_pending_block_once_and_leaves_others() {
    let mut native = Native::new();
    let engine = Engine::new(&mut native, Backend::NOOP).unwrap();
    let parked = make_buffer_descriptor(&mut native, vec![1u8, 2]);
    let ib = IndexBuffer::builder()
        .index_count(3)
        .build(&mut native, &engine)
        .unwrap();
    ib.write(&mut native, 0, vec![0u8, 1, 0, 2, 0, 3]);
    ib.write(&mut native, 6, vec![0u8, 4]);
    assert_eq!(native.heap.pending.len(), 2);
    let first = native.heap.pending[0].buffer as usize;
    let second = native.heap.pending[1].buffer as usize;
    engine.flush_and_wait(&mut native);
    assert!(matches!(native.heap.blocks[first], HeapBlock::Freed));
    assert!(matches!(native.heap.blocks[second], HeapBlock::Freed));
    assert!(matches!(native.heap.blocks[parked.buffer as usize], HeapBlock::Held(_)));
    deallocate_rust_buffer(&mut native, parked.buffer, parked.size, parked.user);
    assert!(matches!(native.heap.blocks[parked.buffer as usize], HeapBlock::Freed));
}

#[test]
fn zero_length_upload_completes_with_zero_size() {
    let mut native = Native::new();
    let engine = Engine::new(&mut native, Backend::NOOP).unwrap();
    let vb = VertexBuffer::builder()
        .vertex_count(0)
        .build(&mut native, &engine)
        .unwrap();
    vb.write_at(&mut native, 0, 0, Vec::new());
    assert_eq!(native.heap.pending.len(), 1);
    assert_eq!(native.heap.pending[0].size, 0);
    let block = native.heap.pending[0].buffer as usize;
    engine.flush_and_wait(&mut native);
    assert!(matches!(native.heap.blocks[block], HeapBlock::Freed));
}

#[test]
fn buffer_getters_return_configured_counts() {
    let mut native = Native::new();
    let engine = Engine::new(&mut native, Backend::NOOP).unwrap();
    let vb = VertexBuffer::builder()
        .vertex_count(12)
        .buffer_count(2)
        .build(&mut native, &engine)
        .unwrap();
    assert_eq!(vb.vertex_count(&native), 12);
    let ib = IndexBuffer::builder()
        .index_count(36)
        .build(&mut native, &engine)
        .unwrap();
    assert_eq!(ib.index_count(&native), 36);
}
