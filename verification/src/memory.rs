//! Physical memory: the mirror of physical memory in the kernel's address
//! space, and the boot-time frame allocator over the firmware's memory map.
//!
//! The memory map is `bootloader`'s; addresses and frames are aligned and
//! range-checked by `x86_64`.

use bootloader::bootinfo::{FrameRange, MemoryMap, MemoryRegion, MemoryRegionType};
use vstd::prelude::*;
use x86_64::structures::paging::{PhysFrame, Size4KiB};
use x86_64::{PhysAddr, VirtAddr};

verus! {

/// Bytes in a frame, and in a page.
pub const FRAME_SIZE: u64 = 4096;

/// Physical addresses have 52 bits.
pub const PHYS_ADDR_LIMIT: u64 = 0x10_0000_0000_0000;

/// A virtual address is canonical when bits 47 to 63 are all equal.
pub open spec fn is_canonical(addr: int) -> bool {
    0 <= addr < 0x8000_0000_0000 || 0xffff_8000_0000_0000 <= addr <= u64::MAX
}

/// Whether `addr` is a canonical virtual address.
pub fn is_canonical_address(addr: u64) -> (ok: bool)
    ensures
        ok == is_canonical(addr as int),
{
    addr < 0x8000_0000_0000 || addr >= 0xffff_8000_0000_0000
}

/// The start of the 4 KiB block that holds `addr`.
pub open spec fn align_down(addr: int) -> int {
    addr - addr % 4096
}

/// `bootloader::bootinfo::MemoryRegionType` with its variants.
#[verifier::external_type_specification]
pub struct ExMemoryRegionType(MemoryRegionType);

/// `bootloader::bootinfo::FrameRange` with its two public fields, the
/// numbers of the first frame in the range and of the first frame after it.
#[verifier::external_type_specification]
pub struct ExFrameRange(FrameRange);

/// `bootloader::bootinfo::MemoryRegion` with its two public fields, the
/// range and the type.
#[verifier::external_type_specification]
pub struct ExMemoryRegion(MemoryRegion);

/// `bootloader::bootinfo::MemoryMap`, whose fields are private.
#[verifier::external_type_specification]
#[verifier::external_body]
pub struct ExMemoryMap(MemoryMap);

/// The regions that a memory map holds, in the order in which it yields them.
pub uninterp spec fn map_regions(map: MemoryMap) -> Seq<MemoryRegion>;

/// `MemoryMap`'s `Deref`: the map read as the slice of the regions that have
/// been entered into it.
#[verifier::external_body]
fn memory_regions(map: &MemoryMap) -> (regions: &[MemoryRegion])
    ensures
        regions@ == map_regions(*map),
{
    &**map
}

/// `FrameRange::start_addr` multiplies the start frame number by the frame
/// size.
pub assume_specification[ FrameRange::start_addr ](range: &FrameRange) -> (addr: u64)
    requires
        range.start_frame_number * 4096 <= u64::MAX,
    ensures
        addr == range.start_frame_number * 4096,
;

/// `FrameRange::end_addr` multiplies the end frame number by the frame size.
pub assume_specification[ FrameRange::end_addr ](range: &FrameRange) -> (addr: u64)
    requires
        range.end_frame_number * 4096 <= u64::MAX,
    ensures
        addr == range.end_frame_number * 4096,
;

/// `PhysFrame::containing_address` on `PhysAddr::new(addr)`: the start of
/// the frame that holds `addr`, which is `addr` with its low 12 bits
/// cleared. `PhysAddr::new` accepts addresses of up to 52 bits.
#[verifier::external_body]
fn frame_start_containing(addr: u64) -> (start: u64)
    requires
        addr < PHYS_ADDR_LIMIT,
    ensures
        start == align_down(addr as int),
{
    PhysFrame::<Size4KiB>::containing_address(PhysAddr::new(addr)).start_address().as_u64()
}

/// `VirtAddr::new(base) + offset`: the address `offset` bytes above `base`.
/// `VirtAddr::new` keeps a canonical address as it is, and `+` adds the
/// integers and passes the sum to `VirtAddr::new`. Left out are the sums
/// that do not fit in 64 bits and those that are not canonical as they
/// stand, which `VirtAddr::new` rejects or changes.
#[verifier::external_body]
pub(crate) fn virt_add(base: u64, offset: u64) -> (sum: u64)
    requires
        is_canonical(base as int),
        is_canonical(base + offset),
    ensures
        sum == base + offset,
{
    (VirtAddr::new(base) + offset).as_u64()
}

/// A 4 KiB frame of physical memory.
#[derive(Debug, Clone, Copy, PartialEq, Eq)]
pub struct Frame {
    start_address: u64,
}

impl Frame {
    /// Physical address of the first byte of the frame.
    pub closed spec fn start(self) -> int {
        self.start_address as int
    }

    #[verifier::type_invariant]
    spec fn inv(self) -> bool {
        self.start_address % 4096 == 0 && self.start_address < PHYS_ADDR_LIMIT
    }

    /// The frame that holds the physical address `addr`.
    pub fn containing_address(addr: u64) -> (frame: Self)
        requires
            addr < PHYS_ADDR_LIMIT,
        ensures
            frame.start() == align_down(addr as int),
    {
        Frame { start_address: frame_start_containing(addr) }
    }

    /// Physical address of the first byte of the frame: a multiple of 4096
    /// within the physical address space.
    pub fn start_address(self) -> (addr: u64)
        ensures
            addr == self.start(),
            addr % 4096 == 0,
            addr < PHYS_ADDR_LIMIT,
    {
        proof {
            use_type_invariant(self);
        }
        self.start_address
    }
}

/// Whether a mirror of physical memory that starts at the virtual address
/// `offset` reaches the physical address `phys`.
pub open spec fn mirrors(offset: int, phys: int) -> bool {
    is_canonical(offset) && 0 <= phys && is_canonical(offset + phys)
}

/// The mirror of physical memory in the kernel's address space, and the
/// place of the active level-4 page table in it.
pub struct OffsetMapping {
    physical_offset: u64,
    level_4_table: u64,
}

impl OffsetMapping {
    /// Virtual address at which physical address 0 appears.
    pub closed spec fn offset(&self) -> int {
        self.physical_offset as int
    }

    /// Virtual address of the active level-4 page table.
    pub closed spec fn table(&self) -> int {
        self.level_4_table as int
    }

    #[verifier::type_invariant]
    spec fn inv(&self) -> bool {
        is_canonical(self.physical_offset as int)
    }

    pub fn physical_offset(&self) -> (offset: u64)
        ensures
            offset == self.offset(),
    {
        self.physical_offset
    }

    pub fn level_4_table(&self) -> (addr: u64)
        ensures
            addr == self.table(),
    {
        self.level_4_table
    }

    /// Whether the mirror reaches the physical address `phys`.
    pub fn reaches(&self, phys: u64) -> (ok: bool)
        ensures
            ok == mirrors(self.offset(), phys as int),
    {
        proof {
            use_type_invariant(self);
        }
        match self.physical_offset.checked_add(phys) {
            Some(virt) => is_canonical_address(virt),
            None => false,
        }
    }

    /// The virtual address at which the physical address `phys` appears.
    /// Taking the offset off again gives `phys` back.
    pub fn translate(&self, phys: u64) -> (virt: u64)
        requires
            mirrors(self.offset(), phys as int),
        ensures
            virt == self.offset() + phys,
            virt - self.offset() == phys,
    {
        proof {
            use_type_invariant(self);
        }
        virt_add(self.physical_offset, phys)
    }
}

/// Describes the address space from the offset of the mirror and the frame
/// that the page-table root register names.
pub fn init(physical_offset: u64, level_4_table_frame: Frame) -> (mapping: OffsetMapping)
    requires
        mirrors(physical_offset as int, level_4_table_frame.start()),
    ensures
        mapping.offset() == physical_offset,
        mapping.table() == physical_offset + level_4_table_frame.start(),
{
    let level_4_table = virt_add(physical_offset, level_4_table_frame.start_address());
    OffsetMapping { physical_offset, level_4_table }
}

/// Physical address at which a region starts.
pub open spec fn region_start(region: MemoryRegion) -> int {
    region.range.start_frame_number * 4096
}

/// Physical address at which a region ends; the region does not hold it.
pub open spec fn region_end(region: MemoryRegion) -> int {
    region.range.end_frame_number * 4096
}

pub open spec fn is_usable(region: MemoryRegion) -> bool {
    region.region_type == MemoryRegionType::Usable
}

/// The frames that a region offers: none unless it is usable; else one every
/// 4096 bytes from its start for as long as that lies below its end.
pub open spec fn region_frames(region: MemoryRegion) -> Seq<int> {
    if is_usable(region) && region_start(region) < region_end(region) {
        Seq::new(
            ((region_end(region) - region_start(region)) / 4096) as nat,
            |k: int| region_start(region) + 4096 * k,
        )
    } else {
        Seq::empty()
    }
}

/// The frames of all regions as one sequence, in the order of the map.
pub open spec fn usable_frames(regions: Seq<MemoryRegion>) -> Seq<int>
    decreases regions.len(),
{
    if regions.len() == 0 {
        Seq::empty()
    } else {
        usable_frames(regions.drop_last()) + region_frames(regions.last())
    }
}

/// The frame that the allocation numbered `n`, counting from 0, returns.
pub open spec fn frame_at(regions: Seq<MemoryRegion>, n: nat) -> Option<int> {
    if n < usable_frames(regions).len() {
        Some(usable_frames(regions)[n as int])
    } else {
        None
    }
}

/// Every address of every usable region is a physical address: such a map
/// can be walked without leaving the physical address space.
pub open spec fn addressable(regions: Seq<MemoryRegion>) -> bool {
    forall|i: int|
        0 <= i < regions.len() && is_usable(#[trigger] regions[i]) ==> region_start(regions[i])
            <= PHYS_ADDR_LIMIT && region_end(regions[i]) <= PHYS_ADDR_LIMIT
}

/// Whether every address of every usable region of `map` is a physical
/// address.
pub fn is_addressable(map: &MemoryMap) -> (ok: bool)
    ensures
        ok == addressable(map_regions(*map)),
{
    let regions = memory_regions(map);
    let limit: u64 = PHYS_ADDR_LIMIT / FRAME_SIZE;
    let mut i: usize = 0;
    while i < regions.len()
        invariant
            i <= regions.len(),
            regions@ == map_regions(*map),
            limit == 0x100_0000_0000,
            forall|j: int|
                0 <= j < i && is_usable(#[trigger] regions@[j]) ==> region_start(regions@[j])
                    <= PHYS_ADDR_LIMIT && region_end(regions@[j]) <= PHYS_ADDR_LIMIT,
        decreases regions.len() - i,
    {
        let region = &regions[i];
        let usable = match region.region_type {
            MemoryRegionType::Usable => true,
            _ => false,
        };
        if usable && (region.range.start_frame_number > limit || region.range.end_frame_number
            > limit) {
            return false;
        }
        i += 1;
    }
    true
}

/// Hands out the frames of the usable regions of a memory map, each once, in
/// the order of the map. Nothing is ever taken back.
pub struct FirstZoneAlloc {
    mem_map: &'static MemoryMap,
    next: usize,
}

impl FirstZoneAlloc {
    /// The regions of the memory map.
    pub closed spec fn regions(&self) -> Seq<MemoryRegion> {
        map_regions(*self.mem_map)
    }

    /// How many allocations have been made.
    pub closed spec fn allocated(&self) -> nat {
        self.next as nat
    }

    #[verifier::type_invariant]
    spec fn inv(&self) -> bool {
        addressable(map_regions(*self.mem_map))
    }

    /// An allocator that has handed out nothing. The caller vouches that the
    /// usable regions of the map are unused memory.
    pub fn init(mem_map: &'static MemoryMap) -> (alloc: Self)
        requires
            addressable(map_regions(*mem_map)),
        ensures
            alloc.regions() == map_regions(*mem_map),
            alloc.allocated() == 0,
    {
        FirstZoneAlloc { mem_map, next: 0 }
    }

    /// An allocator over `mem_map` that has handed out nothing, if every
    /// address of every usable region of the map is a physical address.
    pub fn try_init(mem_map: &'static MemoryMap) -> (alloc: Option<Self>)
        ensures
            alloc.is_some() <==> addressable(map_regions(*mem_map)),
            alloc.is_some() ==> alloc.unwrap().regions() == map_regions(*mem_map)
                && alloc.unwrap().allocated() == 0,
    {
        if is_addressable(mem_map) {
            Some(Self::init(mem_map))
        } else {
            None
        }
    }

    /// How many allocations have been made.
    pub fn next(&self) -> (n: usize)
        ensures
            n == self.allocated(),
    {
        self.next
    }

    /// The usable frame numbered `n`, counting from 0.
    fn usable_frame(&self, n: usize) -> (frame: Option<Frame>)
        ensures
            match frame {
                Some(f) => frame_at(self.regions(), n as nat) == Some(f.start()),
                None => frame_at(self.regions(), n as nat).is_none(),
            },
    {
        proof {
            use_type_invariant(self);
        }
        let regions = memory_regions(self.mem_map);
        let mut skip: u64 = n as u64;
        let mut i: usize = 0;
        while i < regions.len()
            invariant
                i <= regions.len(),
                regions@ == self.regions(),
                addressable(regions@),
                usable_frames(regions@.take(i as int)).len() + skip == n,
            decreases regions.len() - i,
        {
            let region = &regions[i];
            proof {
                assert(regions@.take(i + 1).drop_last() =~= regions@.take(i as int));
            }
            let usable = match region.region_type {
                MemoryRegionType::Usable => true,
                _ => false,
            };
            if usable {
                let start = region.range.start_addr();
                let end = region.range.end_addr();
                if start < end {
                    let count = (end - start) / FRAME_SIZE;
                    if skip < count {
                        let addr = start + skip * FRAME_SIZE;
                        proof {
                            lemma_usable_frames_prefix(regions@, i + 1);
                            let upto = usable_frames(regions@.take(i + 1));
                            assert(upto[n as int] == region_frames(regions@[i as int])[skip as int]);
                        }
                        return Some(Frame::containing_address(addr));
                    }
                    skip -= count;
                }
            }
            i += 1;
        }
        proof {
            assert(regions@.take(i as int) =~= regions@);
        }
        None
    }

    /// Hands out the next frame, or `None` when the usable regions are used
    /// up. Every call counts, whatever it returns. A frame that is handed
    /// out is aligned and lies within a usable region of the map.
    pub fn allocate_frame(&mut self) -> (frame: Option<Frame>)
        requires
            old(self).allocated() < usize::MAX,
        ensures
            final(self).regions() == old(self).regions(),
            final(self).allocated() == old(self).allocated() + 1,
            match frame {
                Some(f) => frame_at(old(self).regions(), old(self).allocated()) == Some(f.start()),
                None => frame_at(old(self).regions(), old(self).allocated()).is_none(),
            },
            frame.is_none() <==> old(self).allocated() >= usable_frames(old(self).regions()).len(),
            frame.is_some() ==> exists|i: int|
                0 <= i < old(self).regions().len() && holds_frame(
                    #[trigger] old(self).regions()[i],
                    frame.unwrap().start(),
                ),
    {
        proof {
            use_type_invariant(&*self);
        }
        let frame = self.usable_frame(self.next);
        proof {
            if frame.is_some() {
                lemma_frame_lies_in_usable_region(self.regions(), self.next as int);
            }
        }
        self.next += 1;
        frame
    }
}

/// Whether a region offers any frame.
pub open spec fn offers_frames(region: MemoryRegion) -> bool {
    is_usable(region) && region_start(region) < region_end(region)
}

/// Whether `frame` is the aligned start of 4096 bytes of a usable region.
pub open spec fn holds_frame(region: MemoryRegion, frame: int) -> bool {
    &&& is_usable(region)
    &&& region_start(region) <= frame
    &&& frame + 4096 <= region_end(region)
    &&& frame % 4096 == 0
}

/// The regions that offer frames follow one another without overlap.
pub open spec fn ascending(regions: Seq<MemoryRegion>) -> bool {
    forall|i: int, j: int|
        0 <= i < j < regions.len() && offers_frames(#[trigger] regions[i]) && offers_frames(
            #[trigger] regions[j],
        ) ==> region_end(regions[i]) <= region_start(regions[j])
}

/// No two regions that offer frames overlap, in whatever order they stand.
pub open spec fn disjoint(regions: Seq<MemoryRegion>) -> bool {
    forall|i: int, j: int|
        0 <= i < j < regions.len() && offers_frames(#[trigger] regions[i]) && offers_frames(
            #[trigger] regions[j],
        ) ==> region_end(regions[i]) <= region_start(regions[j]) || region_end(regions[j])
            <= region_start(regions[i])
}

/// Bytes of usable memory in a map.
pub open spec fn usable_bytes(regions: Seq<MemoryRegion>) -> nat
    decreases regions.len(),
{
    if regions.len() == 0 {
        0
    } else {
        usable_bytes(regions.drop_last()) + if offers_frames(regions.last()) {
            (region_end(regions.last()) - region_start(regions.last())) as nat
        } else {
            0
        }
    }
}

/// There is one frame for every 4096 bytes of usable memory.
pub proof fn lemma_frame_count(regions: Seq<MemoryRegion>)
    ensures
        usable_frames(regions).len() * 4096 == usable_bytes(regions),
        usable_frames(regions).len() == usable_bytes(regions) / 4096,
    decreases regions.len(),
{
    if regions.len() > 0 {
        lemma_frame_count(regions.drop_last());
    }
}

/// Every frame is aligned and lies within a usable region of the map.
pub proof fn lemma_frame_lies_in_usable_region(regions: Seq<MemoryRegion>, n: int)
    requires
        0 <= n < usable_frames(regions).len(),
    ensures
        exists|i: int|
            0 <= i < regions.len() && holds_frame(#[trigger] regions[i], usable_frames(regions)[n]),
    decreases regions.len(),
{
    let before = usable_frames(regions.drop_last());
    if n < before.len() {
        lemma_frame_lies_in_usable_region(regions.drop_last(), n);
        let i = choose|i: int|
            0 <= i < regions.drop_last().len() && holds_frame(
                #[trigger] regions.drop_last()[i],
                before[n],
            );
    } else {
        let last = regions.len() - 1;
        assert(usable_frames(regions)[n] == region_frames(regions[last])[n - before.len()]);
        assert(holds_frame(regions[last], usable_frames(regions)[n]));
    }
}

/// Where the regions are ascending, later frames lie above earlier ones.
pub proof fn lemma_frames_ascend(regions: Seq<MemoryRegion>, m: int, n: int)
    requires
        ascending(regions),
        0 <= m < n < usable_frames(regions).len(),
    ensures
        usable_frames(regions)[m] < usable_frames(regions)[n],
    decreases regions.len(),
{
    let rest = regions.drop_last();
    let before = usable_frames(rest);
    let last = regions.len() - 1;
    assert(ascending(rest)) by {
        assert forall|i: int, j: int|
            0 <= i < j < rest.len() && offers_frames(#[trigger] rest[i]) && offers_frames(
                #[trigger] rest[j],
            ) implies region_end(rest[i]) <= region_start(rest[j]) by {
            assert(rest[i] == regions[i] && rest[j] == regions[j]);
        }
    }
    if n < before.len() {
        lemma_frames_ascend(rest, m, n);
    } else if m < before.len() {
        lemma_frame_lies_in_usable_region(rest, m);
        let i = choose|i: int| 0 <= i < rest.len() && holds_frame(#[trigger] rest[i], before[m]);
        assert(rest[i] == regions[i]);
        assert(usable_frames(regions)[n] == region_frames(regions[last])[n - before.len()]);
    } else {
        assert(usable_frames(regions)[m] == region_frames(regions[last])[m - before.len()]);
        assert(usable_frames(regions)[n] == region_frames(regions[last])[n - before.len()]);
    }
}

/// Where no two regions overlap, no frame comes twice.
pub proof fn lemma_frames_differ(regions: Seq<MemoryRegion>, m: int, n: int)
    requires
        disjoint(regions),
        0 <= m < n < usable_frames(regions).len(),
    ensures
        usable_frames(regions)[m] != usable_frames(regions)[n],
    decreases regions.len(),
{
    let rest = regions.drop_last();
    let before = usable_frames(rest);
    let last = regions.len() - 1;
    assert(disjoint(rest)) by {
        assert forall|i: int, j: int|
            0 <= i < j < rest.len() && offers_frames(#[trigger] rest[i]) && offers_frames(
                #[trigger] rest[j],
            ) implies region_end(rest[i]) <= region_start(rest[j]) || region_end(rest[j])
            <= region_start(rest[i]) by {
            assert(rest[i] == regions[i] && rest[j] == regions[j]);
        }
    }
    if n < before.len() {
        lemma_frames_differ(rest, m, n);
    } else if m < before.len() {
        lemma_frame_lies_in_usable_region(rest, m);
        let i = choose|i: int| 0 <= i < rest.len() && holds_frame(#[trigger] rest[i], before[m]);
        assert(rest[i] == regions[i]);
        assert(usable_frames(regions)[n] == region_frames(regions[last])[n - before.len()]);
    } else {
        assert(usable_frames(regions)[m] == region_frames(regions[last])[m - before.len()]);
        assert(usable_frames(regions)[n] == region_frames(regions[last])[n - before.len()]);
    }
}

/// Ascending regions do not overlap.
pub proof fn lemma_ascending_is_disjoint(regions: Seq<MemoryRegion>)
    requires
        ascending(regions),
    ensures
        disjoint(regions),
{
}

/// A fresh allocator over ascending regions succeeds for as many calls as
/// the usable memory has frames. The frames returned are aligned, each
/// lies within a usable region, and each lies above the ones before it, so
/// no two are the same.
pub proof fn lemma_allocations_yield_distinct_frames(regions: Seq<MemoryRegion>, calls: nat)
    requires
        ascending(regions),
        calls <= usable_bytes(regions) / 4096,
    ensures
        forall|n: nat| n < calls ==> (#[trigger] frame_at(regions, n)).is_some(),
        forall|n: nat|
            n < calls ==> exists|i: int|
                0 <= i < regions.len() && holds_frame(
                    #[trigger] regions[i],
                    (#[trigger] frame_at(regions, n)).unwrap(),
                ),
        forall|m: nat, n: nat|
            m < n < calls ==> (#[trigger] frame_at(regions, m)).unwrap() < (#[trigger] frame_at(
                regions,
                n,
            )).unwrap(),
{
    lemma_frame_count(regions);
    assert forall|n: nat| n < calls implies exists|i: int|
        0 <= i < regions.len() && holds_frame(
            #[trigger] regions[i],
            (#[trigger] frame_at(regions, n)).unwrap(),
        ) by {
        lemma_frame_lies_in_usable_region(regions, n as int);
    }
    assert forall|m: nat, n: nat| m < n < calls implies (#[trigger] frame_at(
        regions,
        m,
    )).unwrap() < (#[trigger] frame_at(regions, n)).unwrap() by {
        lemma_frames_ascend(regions, m as int, n as int);
    }
}

/// Once the usable memory is used up every further allocation fails: a
/// call numbered at or beyond the number of frames returns nothing, and so
/// does every call after one that returned nothing.
pub proof fn lemma_exhaustion_is_final(regions: Seq<MemoryRegion>, m: nat, n: nat)
    requires
        m <= n,
    ensures
        m >= usable_bytes(regions) / 4096 ==> frame_at(regions, m).is_none(),
        frame_at(regions, m).is_none() ==> frame_at(regions, n).is_none(),
{
    lemma_frame_count(regions);
}

/// The frames of the first `len` regions open the frames of the whole map.
pub proof fn lemma_usable_frames_prefix(regions: Seq<MemoryRegion>, len: int)
    requires
        0 <= len <= regions.len(),
    ensures
        usable_frames(regions.take(len)).len() <= usable_frames(regions).len(),
        forall|n: int|
            0 <= n < usable_frames(regions.take(len)).len() ==> usable_frames(regions)[n]
                == #[trigger] usable_frames(regions.take(len))[n],
    decreases regions.len(),
{
    if len == regions.len() {
        assert(regions.take(len) =~= regions);
    } else {
        assert(regions.drop_last().take(len) =~= regions.take(len));
        lemma_usable_frames_prefix(regions.drop_last(), len);
    }
}

} // verus!
