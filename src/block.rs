//! The memory block: one contiguous range of a native memory object, the
//! decisions of mapping it into host memory, and the guard that reports a
//! block that was dropped instead of being handed back to its allocator.
//!
//! Device calls and host pointers stay with the caller: the block says which
//! device call to make, claims and releases its mapping state around it, and
//! computes the ranges that must be flushed or invalidated.
use vstd::prelude::*;
use core::sync::atomic::{AtomicU8, Ordering};
use std::io::Write as _;
use gpu_alloc_types::MemoryPropertyFlags;
use crate::align::{
    align_down, align_down_spec, align_up, align_up_spec, is_aligned, lemma_align_down_facts,
    lemma_align_up_facts,
};
use crate::error::{from_device_map_error, MapError};
use crate::state::{MappingState, Transition};
use gpu_alloc_types::DeviceMapError;

verus! {

/// The property flags of a memory type, as the device reports them.
#[verifier::external_type_specification]
#[verifier::external_body]
pub struct ExMemoryPropertyFlags(MemoryPropertyFlags);

/// Relies on `MemoryPropertyFlags::bits`, which returns the flags' raw bits.
pub assume_specification[ MemoryPropertyFlags::bits ](flags: &MemoryPropertyFlags) -> u8;

/// The bit of `MemoryPropertyFlags::HOST_COHERENT`.
pub const HOST_COHERENT: u8 = 0x04;

/// The bit of `MemoryPropertyFlags::HOST_CACHED`.
pub const HOST_CACHED: u8 = 0x08;

/// Every bit of `flag` is set in `bits`.
pub open spec fn has_flag(bits: u8, flag: u8) -> bool {
    bits & flag == flag
}

/// How a block was produced, which decides how it is mapped.
#[derive(Clone, Copy, Debug)]
pub enum MemoryBlockFlavor {
    /// The block is a whole memory object of its own, mapped by a device
    /// call each time.
    Dedicated,
    /// A range of a linear chunk; `ptr` is the host address of the block's
    /// first byte where the chunk stays mapped.
    Linear { chunk: u64, ptr: Option<usize> },
    /// A range of a buddy chunk; `ptr` as for `Linear`.
    Buddy { chunk: usize, index: usize, ptr: Option<usize> },
}

/// The host address of the block's first byte, where the chunk it lies in
/// stays mapped.
pub open spec fn resident_ptr(flavor: MemoryBlockFlavor) -> Option<usize> {
    match flavor {
        MemoryBlockFlavor::Dedicated => None,
        MemoryBlockFlavor::Linear { ptr, .. } => ptr,
        MemoryBlockFlavor::Buddy { ptr, .. } => ptr,
    }
}

/// A byte range of a memory object.
#[derive(PartialEq, Eq, Structural, Clone, Copy, Debug)]
pub struct MemoryRange {
    pub offset: u64,
    pub size: u64,
}

/// What mapping a range of a block takes.
#[derive(PartialEq, Eq, Structural, Clone, Copy, Debug)]
pub enum MapPlan {
    /// Ask the device to map `size` bytes at `offset` of the memory object;
    /// the requested range starts `ptr_offset` bytes into what it returns.
    Device { offset: u64, size: u64, ptr_offset: u64 },
    /// The range is already mapped and starts at host address `addr`.
    Resident { addr: usize },
}

/// What an unmap request leaves to the caller.
#[derive(PartialEq, Eq, Structural, Clone, Copy, Debug)]
pub enum UnmapAction {
    /// The block was not mapped: nothing was done.
    NotMapped,
    /// The block is being unmapped: unmap the memory object on the device,
    /// then call `finish_unmap`.
    DeviceUnmap,
    /// The block is unmapped; no device call is needed.
    Released,
}

/// The plan for mapping `size` bytes at `offset` of a block that starts at
/// `block_offset` of its memory object: a dedicated block maps the range
/// widened to the alignment of `atom_mask`; a block with a resident pointer
/// needs no device call; any other block cannot be mapped.
pub open spec fn map_plan_spec(
    flavor: MemoryBlockFlavor,
    block_offset: u64,
    atom_mask: u64,
    offset: u64,
    size: u64,
) -> Result<MapPlan, MapError> {
    match flavor {
        MemoryBlockFlavor::Dedicated => {
            let start = align_down_spec(offset, atom_mask);
            let end = align_up_spec((offset + size) as u64, atom_mask)->Some_0;
            Ok(
                MapPlan::Device {
                    offset: (block_offset + start) as u64,
                    size: (end - start) as u64,
                    ptr_offset: (offset - start) as u64,
                },
            )
        },
        _ => match resident_ptr(flavor) {
            Some(p) => Ok(MapPlan::Resident { addr: (p + offset) as usize }),
            None => Err(MapError::NonHostVisible),
        },
    }
}

/// The range of the memory object that a flush or an invalidate of `size`
/// bytes at `offset` of the block must cover: widened to the alignment of
/// `atom_mask`.
pub open spec fn atom_range_spec(block_offset: u64, atom_mask: u64, offset: u64, size: u64) -> MemoryRange {
    let start = align_down_spec(offset, atom_mask);
    let end = align_up_spec((offset + size) as u64, atom_mask)->Some_0;
    MemoryRange { offset: (block_offset + start) as u64, size: (end - start) as u64 }
}

/// A block of a chunk that is not mapped on the host is never host-visible:
/// every map of it fails with `NonHostVisible` and plans no device call.
pub proof fn lemma_no_resident_pointer_never_maps(
    flavor: MemoryBlockFlavor,
    block_offset: u64,
    atom_mask: u64,
    offset: u64,
    size: u64,
)
    requires
        !(flavor is Dedicated),
        resident_ptr(flavor) is None,
    ensures
        map_plan_spec(flavor, block_offset, atom_mask, offset, size) == Err::<MapPlan, MapError>(
            MapError::NonHostVisible,
        ),
{
}

/// A successful plan gives a pointer that is valid for the whole requested
/// range: a device map covers it, starts on an atom boundary of the block,
/// and the requested offset lies `ptr_offset` bytes into it; a resident
/// pointer is advanced by the requested offset and stays within the block.
pub proof fn lemma_map_plan_covers_request(
    flavor: MemoryBlockFlavor,
    block_offset: u64,
    block_size: u64,
    atom_mask: u64,
    offset: u64,
    size: u64,
)
    requires
        block_params_ok(block_offset, block_size, atom_mask, flavor),
        offset < block_size,
        size <= block_size - offset,
        flavor is Dedicated ==> offset + size + atom_mask <= u64::MAX,
    ensures
        map_plan_spec(flavor, block_offset, atom_mask, offset, size) matches Ok(
            MapPlan::Device { offset: o, size: n, ptr_offset: p },
        ) ==> {
            &&& o + p == block_offset + offset
            &&& p + size <= n
            &&& p <= atom_mask
            &&& is_aligned((o - block_offset) as u64, atom_mask)
        },
        map_plan_spec(flavor, block_offset, atom_mask, offset, size) matches Ok(
            MapPlan::Resident { addr },
        ) ==> resident_ptr(flavor) matches Some(base) && addr == base + offset && addr + size
            <= base + block_size,
{
    lemma_align_down_facts(offset, atom_mask);
    if flavor is Dedicated {
        lemma_align_up_facts((offset + size) as u64, atom_mask);
    }
}

/// The range flushed after a write, or invalidated before a read, starts at
/// or before the boundary below the requested start and ends at or after
/// the boundary above the requested end, both boundaries counted from the
/// block's start; it reaches past the requested range by less than an
/// atom on either side.
pub proof fn lemma_atom_range_covers(block_offset: u64, atom_mask: u64, offset: u64, size: u64)
    requires
        block_offset + offset + size + atom_mask <= u64::MAX,
    ensures
        ({
            let r = atom_range_spec(block_offset, atom_mask, offset, size);
            &&& r.offset <= block_offset + offset
            &&& block_offset + offset + size <= r.offset + r.size
            &&& block_offset + offset - r.offset <= atom_mask
            &&& r.offset + r.size - (block_offset + offset + size) <= atom_mask
            &&& is_aligned((r.offset - block_offset) as u64, atom_mask)
            &&& is_aligned((r.offset + r.size - block_offset) as u64, atom_mask)
        }),
{
    lemma_align_down_facts(offset, atom_mask);
    lemma_align_up_facts((offset + size) as u64, atom_mask);
}

/// Armed in every live block; reports a leak when dropped.
#[derive(Debug)]
struct Relevant;

impl Drop for Relevant {
    fn drop(&mut self)
        opens_invariants none
        no_unwind
    {
        report_leak();
    }
}

/// Relies on `std::io::stderr` and `writeln!`: reports a block that was
/// dropped without being deallocated.
#[verifier::external_body]
fn report_leak()
    opens_invariants none
    no_unwind
{
    let _ = writeln!(std::io::stderr(), "Memory block wasn't deallocated");
}

/// Relies on `core::mem::forget`: disarms the guard without dropping it.
#[verifier::external_body]
fn disarm(guard: Relevant) {
    core::mem::forget(guard)
}

/// A block of memory handed out by an allocator.
#[derive(Debug)]
pub struct MemoryBlock<M> {
    memory: M,
    memory_type: u32,
    props: MemoryPropertyFlags,
    props_bits: u8,
    offset: u64,
    size: u64,
    atom_mask: u64,
    mapped: AtomicU8,
    flavor: MemoryBlockFlavor,
    relevant: Relevant,
}

impl<M> MemoryBlock<M> {
    pub closed spec fn spec_memory(&self) -> M {
        self.memory
    }

    pub closed spec fn spec_memory_type(&self) -> u32 {
        self.memory_type
    }

    pub closed spec fn spec_props(&self) -> MemoryPropertyFlags {
        self.props
    }

    /// The raw bits of the block's memory property flags.
    pub closed spec fn spec_props_bits(&self) -> u8 {
        self.props_bits
    }

    pub closed spec fn spec_offset(&self) -> u64 {
        self.offset
    }

    pub closed spec fn spec_size(&self) -> u64 {
        self.size
    }

    pub closed spec fn spec_atom_mask(&self) -> u64 {
        self.atom_mask
    }

    pub closed spec fn spec_flavor(&self) -> MemoryBlockFlavor {
        self.flavor
    }

    /// The block's range is not empty and fits in 64 bits, its atom mask
    /// fits a host pointer offset, and a resident pointer leaves room for
    /// the whole block in the host address space.
    pub open spec fn wf(&self) -> bool {
        block_params_ok(self.spec_offset(), self.spec_size(), self.spec_atom_mask(), self.spec_flavor())
    }

    /// The plan `plan_map` and `begin_map` follow for this block.
    pub open spec fn map_plan_of(&self, offset: u64, size: usize) -> Result<MapPlan, MapError> {
        map_plan_spec(self.spec_flavor(), self.spec_offset(), self.spec_atom_mask(), offset, size as u64)
    }

    /// `size` bytes at `offset` lie within the block and, for a dedicated
    /// block, the end of that range can be aligned within 64 bits.
    pub open spec fn map_args_ok(&self, offset: u64, size: usize) -> bool {
        &&& offset < self.spec_size()
        &&& size <= self.spec_size() - offset
        &&& self.spec_flavor() is Dedicated ==> offset + size + self.spec_atom_mask() <= u64::MAX
    }

    /// The block's memory is host-coherent.
    pub open spec fn spec_coherent(&self) -> bool {
        has_flag(self.spec_props_bits(), HOST_COHERENT)
    }

    /// The block's memory is host-cached.
    pub open spec fn spec_cached(&self) -> bool {
        has_flag(self.spec_props_bits(), HOST_CACHED)
    }
}

impl<M> MemoryBlock<M> {
    /// Makes a block of `size` bytes at `offset` of `memory`, unmapped.
    pub fn new(
        memory: M,
        memory_type: u32,
        props: MemoryPropertyFlags,
        offset: u64,
        size: u64,
        atom_mask: u64,
        flavor: MemoryBlockFlavor,
    ) -> (r: Self)
        requires
            block_params_ok(offset, size, atom_mask, flavor),
        ensures
            r.wf(),
            r.spec_memory() == memory,
            r.spec_memory_type() == memory_type,
            r.spec_props() == props,
            r.spec_offset() == offset,
            r.spec_size() == size,
            r.spec_atom_mask() == atom_mask,
            r.spec_flavor() == flavor,
    {
        let props_bits = props.bits();
        MemoryBlock {
            memory,
            memory_type,
            props,
            props_bits,
            offset,
            size,
            atom_mask,
            mapped: AtomicU8::new(MappingState::Unmapped.to_u8()),
            flavor,
            relevant: Relevant,
        }
    }

    /// Hands the block back to its allocator: disarms the leak guard and
    /// returns the memory object and the flavor.
    pub fn deallocate(self) -> (r: (M, MemoryBlockFlavor))
        ensures
            r.0 == self.spec_memory(),
            r.1 == self.spec_flavor(),
    {
        let MemoryBlock { memory, flavor, relevant, .. } = self;
        disarm(relevant);
        (memory, flavor)
    }

    /// The memory object the block is a range of.
    pub fn memory(&self) -> (r: &M)
        ensures
            *r == self.spec_memory(),
    {
        &self.memory
    }

    /// The memory object the block is a range of, for device calls that
    /// take it by unique reference.
    pub fn memory_mut(&mut self) -> (r: &mut M)
        ensures
            *r == old(self).spec_memory(),
    {
        &mut self.memory
    }

    /// The offset in bytes of the block's start in its memory object.
    pub fn offset(&self) -> (r: u64)
        ensures
            r == self.spec_offset(),
    {
        self.offset
    }

    /// The size of the block in bytes.
    pub fn size(&self) -> (r: u64)
        ensures
            r == self.spec_size(),
    {
        self.size
    }

    /// The property flags of the block's memory type.
    pub fn props(&self) -> (r: MemoryPropertyFlags)
        ensures
            r == self.spec_props(),
    {
        self.props
    }

    /// The index of the block's memory type.
    pub fn memory_type(&self) -> (r: u32)
        ensures
            r == self.spec_memory_type(),
    {
        self.memory_type
    }

    /// The block's non-coherent atom size minus one.
    pub fn atom_mask(&self) -> (r: u64)
        ensures
            r == self.spec_atom_mask(),
    {
        self.atom_mask
    }

    /// How the block was produced.
    pub fn flavor(&self) -> (r: MemoryBlockFlavor)
        ensures
            r == self.spec_flavor(),
    {
        self.flavor
    }

    /// Takes `t` on the state cell in one compare-and-swap; `true` where the
    /// cell held the state `t` starts from. Acquires on success, so that what
    /// the claimant does next is ordered after the claim.
    fn try_transition(&self, t: Transition) -> bool {
        self.mapped.compare_exchange(
            t.from_state().to_u8(),
            t.to_state().to_u8(),
            Ordering::Acquire,
            Ordering::Relaxed,
        ).is_ok()
    }

    /// Completes `t`, whose starting state the caller holds. Releases, so
    /// that what the holder did is visible to the next observer.
    fn complete_transition(&self, t: Transition) {
        self.mapped.store(t.to_state().to_u8(), Ordering::Release)
    }

    fn acquire_mapping(&self) -> bool {
        self.try_transition(Transition::AcquireMapping)
    }

    fn start_mapping(&self) -> bool {
        self.try_transition(Transition::StartMapping)
    }

    fn end_mapping(&self) {
        self.complete_transition(Transition::EndMapping)
    }

    fn mapping_failed(&self) {
        self.complete_transition(Transition::MappingFailed)
    }

    fn start_unmapping(&self) -> bool {
        self.try_transition(Transition::StartUnmapping)
    }

    fn end_unmapping(&self) {
        self.complete_transition(Transition::EndUnmapping)
    }

    /// Whether the block's memory is host-coherent.
    pub fn coherent(&self) -> (r: bool)
        ensures
            r == self.spec_coherent(),
    {
        self.props_bits & HOST_COHERENT == HOST_COHERENT
    }

    /// Whether the block's memory is host-cached; reads from memory that is
    /// not are slow.
    pub fn cached(&self) -> (r: bool)
        ensures
            r == self.spec_cached(),
    {
        self.props_bits & HOST_CACHED == HOST_CACHED
    }

    /// Starts mapping `size` bytes at `offset` of the block: claims the
    /// block and says what to do next. A dedicated block is claimed as
    /// `Mapping` and the caller makes the device call, then `finish_map`; a
    /// block with a resident pointer is claimed as `Mapped` and is mapped
    /// when this returns. Where the block is claimed already the result is
    /// `AlreadyMapped`; a block that cannot be mapped is not claimed.
    pub fn begin_map(&self, offset: u64, size: usize) -> (r: Result<MapPlan, MapError>)
        requires
            self.wf(),
            self.map_args_ok(offset, size),
        ensures
            r is Ok ==> r == self.map_plan_of(offset, size),
            self.map_plan_of(offset, size) is Err ==> r == self.map_plan_of(offset, size),
            r is Err ==> r == self.map_plan_of(offset, size) || r == Err::<MapPlan, MapError>(
                MapError::AlreadyMapped,
            ),
    {
        let plan = self.plan_map(offset, size);
        match plan {
            Ok(MapPlan::Device { .. }) => {
                if !self.start_mapping() {
                    return Err(MapError::AlreadyMapped);
                }
            },
            Ok(MapPlan::Resident { .. }) => {
                if !self.acquire_mapping() {
                    return Err(MapError::AlreadyMapped);
                }
            },
            Err(_) => {},
        }
        plan
    }

    /// Completes a map that `begin_map` started with a device plan, given
    /// the outcome of the device call: the block becomes `Mapped` on
    /// success, and `Unmapped` again on failure, whose error is returned.
    pub fn finish_map(&self, device_result: Result<(), DeviceMapError>) -> (r: Result<(), MapError>)
        ensures
            r == match device_result {
                Ok(()) => Ok(()),
                Err(e) => Err(from_device_map_error(e)),
            },
    {
        match device_result {
            Ok(()) => {
                self.end_mapping();
                Ok(())
            },
            Err(e) => {
                self.mapping_failed();
                Err(MapError::from(e))
            },
        }
    }

    /// Starts unmapping the block. Where it is not mapped nothing happens;
    /// a dedicated block is claimed as `Unmapping` and the caller unmaps the
    /// memory object, then calls `finish_unmap`; any other block is unmapped
    /// when this returns, as its chunk stays mapped.
    pub fn begin_unmap(&self) -> (r: UnmapAction)
        ensures
            r is DeviceUnmap ==> self.spec_flavor() is Dedicated,
            r is Released ==> !(self.spec_flavor() is Dedicated),
    {
        if !self.start_unmapping() {
            return UnmapAction::NotMapped;
        }
        match self.flavor {
            MemoryBlockFlavor::Dedicated => UnmapAction::DeviceUnmap,
            MemoryBlockFlavor::Linear { .. } | MemoryBlockFlavor::Buddy { .. } => {
                self.end_unmapping();
                UnmapAction::Released
            },
        }
    }

    /// Completes an unmap that `begin_unmap` left to the device.
    pub fn finish_unmap(&self) {
        self.end_unmapping()
    }

    /// The range of the memory object to flush after writing, or invalidate
    /// before reading, `size` bytes at `offset` of the block: `None` for
    /// host-coherent memory, which needs neither; otherwise the range
    /// widened to the non-coherent atom.
    pub fn atom_range(&self, offset: u64, size: usize) -> (r: Option<MemoryRange>)
        requires
            self.wf(),
            offset < self.spec_size(),
            size <= self.spec_size() - offset,
            offset + size + self.spec_atom_mask() <= u64::MAX,
        ensures
            self.spec_coherent() ==> r is None,
            !self.spec_coherent() ==> r == Some(
                atom_range_spec(self.spec_offset(), self.spec_atom_mask(), offset, size as u64),
            ),
    {
        if self.coherent() {
            return None;
        }
        let start = align_down(offset, self.atom_mask);
        match align_up(offset + size as u64, self.atom_mask) {
            Some(end) => Some(MemoryRange { offset: self.offset + start, size: end - start }),
            // The requirement on `atom_mask` keeps the aligned end within 64 bits.
            None => None,
        }
    }

    /// What mapping `size` bytes at `offset` of the block takes, without
    /// claiming the block.
    pub fn plan_map(&self, offset: u64, size: usize) -> (r: Result<MapPlan, MapError>)
        requires
            self.wf(),
            self.map_args_ok(offset, size),
        ensures
            r == self.map_plan_of(offset, size),
    {
        let size_u64 = size as u64;
        match self.flavor {
            MemoryBlockFlavor::Dedicated => {
                let end = align_up(offset + size_u64, self.atom_mask);
                let start = align_down(offset, self.atom_mask);
                match end {
                    Some(end) => Ok(
                        MapPlan::Device {
                            offset: self.offset + start,
                            size: end - start,
                            ptr_offset: offset - start,
                        },
                    ),
                    // `map_args_ok` keeps the aligned end within 64 bits.
                    None => Err(MapError::NonHostVisible),
                }
            },
            MemoryBlockFlavor::Linear { ptr: Some(p), .. }
            | MemoryBlockFlavor::Buddy { ptr: Some(p), .. } => {
                Ok(MapPlan::Resident { addr: p + offset as usize })
            },
            _ => Err(MapError::NonHostVisible),
        }
    }
}

/// The constraints a block is constructed under.
pub open spec fn block_params_ok(offset: u64, size: u64, atom_mask: u64, flavor: MemoryBlockFlavor) -> bool {
    &&& size > 0
    &&& offset + size <= u64::MAX
    &&& atom_mask <= isize::MAX
    &&& resident_ptr(flavor) matches Some(p) ==> p + size <= isize::MAX
}

} // verus!
