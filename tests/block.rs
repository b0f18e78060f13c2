use gpu_alloc_block::block::{MapPlan, MemoryBlock, MemoryBlockFlavor, MemoryRange, UnmapAction};
use gpu_alloc_block::error::MapError;
use gpu_alloc_types::{DeviceMapError, MemoryPropertyFlags, OutOfMemory};

fn non_coherent() -> MemoryPropertyFlags {
    MemoryPropertyFlags::HOST_VISIBLE
}

fn coherent() -> MemoryPropertyFlags {
    MemoryPropertyFlags::HOST_VISIBLE | MemoryPropertyFlags::HOST_COHERENT
}

fn dedicated(offset: u64, props: MemoryPropertyFlags) -> MemoryBlock<u32> {
    MemoryBlock::new(7, 2, props, offset, 256, 63, MemoryBlockFlavor::Dedicated)
}

fn linear(ptr: Option<usize>) -> MemoryBlock<u32> {
    MemoryBlock::new(9, 1, coherent(), 512, 128, 63, MemoryBlockFlavor::Linear { chunk: 3, ptr })
}

fn buddy(ptr: Option<usize>) -> MemoryBlock<u32> {
    MemoryBlock::new(9, 1, coherent(), 0, 64, 63, MemoryBlockFlavor::Buddy { chunk: 1, index: 4, ptr })
}

#[test]
fn accessors_return_constructor_values() {
    let block = dedicated(128, coherent());
    assert_eq!(*block.memory(), 7);
    assert_eq!(block.memory_type(), 2);
    assert_eq!(block.offset(), 128);
    assert_eq!(block.size(), 256);
    assert_eq!(block.atom_mask(), 63);
    assert_eq!(block.props(), coherent());
    assert!(matches!(block.flavor(), MemoryBlockFlavor::Dedicated));
    block.deallocate();
}

#[test]
fn property_bits_are_read_from_flags() {
    let block = dedicated(0, coherent());
    assert!(block.coherent());
    assert!(!block.cached());
    block.deallocate();
    let block = dedicated(0, MemoryPropertyFlags::HOST_VISIBLE | MemoryPropertyFlags::HOST_CACHED);
    assert!(!block.coherent());
    assert!(block.cached());
    block.deallocate();
}

#[test]
fn non_coherent_dedicated_flush_range_is_widened_to_atoms() {
    let block = dedicated(0, non_coherent());
    assert_eq!(block.atom_range(10, 20), Some(MemoryRange { offset: 0, size: 64 }));
    assert_eq!(
        block.plan_map(10, 20),
        Ok(MapPlan::Device { offset: 0, size: 64, ptr_offset: 10 })
    );
    block.deallocate();
}

#[test]
fn flush_range_is_absolute_in_memory_object() {
    let block = dedicated(128, non_coherent());
    assert_eq!(block.atom_range(70, 60), Some(MemoryRange { offset: 192, size: 128 }));
    assert_eq!(block.atom_range(64, 64), Some(MemoryRange { offset: 192, size: 64 }));
    assert_eq!(
        block.plan_map(70, 60),
        Ok(MapPlan::Device { offset: 192, size: 128, ptr_offset: 6 })
    );
    block.deallocate();
}

#[test]
fn coherent_memory_needs_no_flush() {
    let block = dedicated(0, coherent());
    assert_eq!(block.atom_range(10, 20), None);
    block.deallocate();
}

#[test]
fn dedicated_map_then_unmap_can_be_repeated() {
    let block = dedicated(0, non_coherent());
    for _ in 0..3 {
        let plan = block.begin_map(10, 20);
        assert_eq!(plan, Ok(MapPlan::Device { offset: 0, size: 64, ptr_offset: 10 }));
        assert_eq!(block.finish_map(Ok(())), Ok(()));
        assert_eq!(block.begin_unmap(), UnmapAction::DeviceUnmap);
        block.finish_unmap();
    }
    block.deallocate();
}

#[test]
fn resident_map_then_unmap_can_be_repeated() {
    let block = linear(Some(0x1000));
    for _ in 0..3 {
        assert_eq!(block.begin_map(8, 4), Ok(MapPlan::Resident { addr: 0x1008 }));
        assert_eq!(block.begin_unmap(), UnmapAction::Released);
    }
    block.deallocate();
}

#[test]
fn second_map_of_mapped_block_fails() {
    let block = dedicated(0, non_coherent());
    assert!(block.begin_map(0, 16).is_ok());
    assert_eq!(block.begin_map(0, 16), Err(MapError::AlreadyMapped));
    assert_eq!(block.finish_map(Ok(())), Ok(()));
    assert_eq!(block.begin_map(32, 16), Err(MapError::AlreadyMapped));
    let block2 = buddy(Some(0x2000));
    assert_eq!(block2.begin_map(0, 64), Ok(MapPlan::Resident { addr: 0x2000 }));
    assert_eq!(block2.begin_map(1, 1), Err(MapError::AlreadyMapped));
    block.deallocate();
    block2.deallocate();
}

#[test]
fn unmap_of_unmapped_block_does_nothing() {
    let block = dedicated(0, non_coherent());
    assert_eq!(block.begin_unmap(), UnmapAction::NotMapped);
    assert!(block.begin_map(0, 1).is_ok());
    assert_eq!(block.finish_map(Ok(())), Ok(()));
    assert_eq!(block.begin_unmap(), UnmapAction::DeviceUnmap);
    block.finish_unmap();
    assert_eq!(block.begin_unmap(), UnmapAction::NotMapped);
    assert!(block.begin_map(0, 1).is_ok());
    block.deallocate();
}

#[test]
fn block_without_resident_pointer_is_not_host_visible() {
    let block = linear(None);
    assert_eq!(block.begin_map(0, 128), Err(MapError::NonHostVisible));
    assert_eq!(block.plan_map(5, 1), Err(MapError::NonHostVisible));
    assert_eq!(block.begin_unmap(), UnmapAction::NotMapped);
    let block2 = buddy(None);
    assert_eq!(block2.begin_map(0, 1), Err(MapError::NonHostVisible));
    assert_eq!(block2.begin_map(0, 1), Err(MapError::NonHostVisible));
    block.deallocate();
    block2.deallocate();
}

#[test]
fn failed_device_map_releases_the_block() {
    let block = dedicated(0, non_coherent());
    assert!(block.begin_map(0, 8).is_ok());
    assert_eq!(block.finish_map(Err(DeviceMapError::MapFailed)), Err(MapError::MapFailed));
    assert!(block.begin_map(0, 8).is_ok());
    assert_eq!(
        block.finish_map(Err(DeviceMapError::OutOfDeviceMemory)),
        Err(MapError::OutOfDeviceMemory)
    );
    assert!(block.begin_map(0, 8).is_ok());
    assert_eq!(
        block.finish_map(Err(DeviceMapError::OutOfHostMemory)),
        Err(MapError::OutOfHostMemory)
    );
    assert_eq!(block.begin_unmap(), UnmapAction::NotMapped);
    block.deallocate();
}

#[test]
fn device_errors_convert_to_map_errors() {
    assert_eq!(MapError::from(OutOfMemory::OutOfDeviceMemory), MapError::OutOfDeviceMemory);
    assert_eq!(MapError::from(OutOfMemory::OutOfHostMemory), MapError::OutOfHostMemory);
    assert_eq!(MapError::from(DeviceMapError::MapFailed), MapError::MapFailed);
}

#[test]
fn deallocate_returns_memory_and_flavor() {
    let block = buddy(Some(0x4000));
    let (memory, flavor) = block.deallocate();
    assert_eq!(memory, 9);
    assert!(matches!(
        flavor,
        MemoryBlockFlavor::Buddy { chunk: 1, index: 4, ptr: Some(0x4000) }
    ));
}

#[test]
fn dropping_block_without_deallocate_reports_leak() {
    let block = linear(None);
    drop(block);
}

#[test]
fn repeated_map_attempts_claim_the_block_once() {
    let block = dedicated(0, non_coherent());
    let resident = linear(Some(0x8000));
    let results: Vec<Result<MapPlan, MapError>> =
        (0..8).map(|_| block.begin_map(0, 32)).collect();
    let resident_results: Vec<Result<MapPlan, MapError>> =
        (0..8).map(|_| resident.begin_map(0, 32)).collect();
    for rs in [&results, &resident_results] {
        assert_eq!(rs.iter().filter(|r| r.is_ok()).count(), 1);
        assert!(rs[0].is_ok());
        assert!(rs[1..].iter().all(|r| *r == Err(MapError::AlreadyMapped)));
    }
    block.deallocate();
    resident.deallocate();
}

#[test]
fn memory_object_can_be_borrowed_mutably() {
    let mut block = dedicated(0, coherent());
    *block.memory_mut() = 11;
    assert_eq!(*block.memory(), 11);
    let (memory, _) = block.deallocate();
    assert_eq!(memory, 11);
}
