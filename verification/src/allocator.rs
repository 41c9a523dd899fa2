//! Heap bootstrap: backs the heap's virtual range with fresh frames, page by
//! page, before the range is handed to the dynamic allocator.
//!
//! Editing the page tables is not done here. [`HeapBootstrap::next`] says
//! which page to map to which frame; the caller performs the mapping and
//! reports how it went through [`PendingMap::resolve`]. Both take their
//! receiver by value, so a bootstrap that has failed cannot be resumed.

use crate::memory::{
    align_down, disjoint, frame_at, is_canonical, lemma_frames_differ, virt_add, FirstZoneAlloc,
    Frame,
};
use bootloader::bootinfo::MemoryRegion;
use vstd::prelude::*;
use x86_64::structures::paging::{Page, Size4KiB};
use x86_64::VirtAddr;

verus! {

/// Virtual address at which the heap starts.
pub const HEAP_START: u64 = 0x4444_4444_0000;

/// Size of the heap in bytes: 100 KiB.
pub const HEAP_SIZE: u64 = 100 * 1024;

/// `Page::containing_address` on `VirtAddr::new(addr)`: the start of the
/// page that holds the canonical address `addr`, which is `addr` with its
/// low 12 bits cleared.
#[verifier::external_body]
fn page_start_containing(addr: u64) -> (start: u64)
    requires
        is_canonical(addr as int),
    ensures
        start == align_down(addr as int),
{
    Page::<Size4KiB>::containing_address(VirtAddr::new(addr)).start_address().as_u64()
}

/// Flags of a page-table entry, as far as the heap sets them.
#[derive(Debug, Clone, Copy, PartialEq, Eq)]
pub struct PageFlags {
    pub present: bool,
    pub writable: bool,
}

/// Why a page could not be mapped.
#[derive(Debug, Clone, Copy, PartialEq, Eq)]
pub enum MapToError {
    /// No frame was left, for the page or for a page table on the way to it.
    FrameAllocationFailed,
    /// The page lies within a huge page that is already mapped.
    ParentEntryHugePage,
    /// The page is already mapped, to the given frame.
    PageAlreadyMapped(Frame),
}

/// A heap range of which the first `mapped` pages are mapped.
pub struct HeapBootstrap {
    start: u64,
    size: u64,
    first_page: u64,
    pages: u64,
    mapped: u64,
}

/// Mathematical value of a [`HeapBootstrap`].
pub struct HeapView {
    pub start: int,
    pub size: int,
    pub mapped: nat,
}

/// A mapping that [`HeapBootstrap::next`] has asked for and whose outcome is
/// not known yet.
pub struct PendingMap {
    page: u64,
    frame: Frame,
    flags: PageFlags,
    bootstrap: HeapBootstrap,
}

/// What to do next for the heap.
pub enum HeapStep {
    /// Map a page to a frame and report back.
    MapPage(PendingMap),
    /// Every page is mapped: hand the range to the dynamic allocator.
    Register { start: u64, size: u64 },
    /// Give up; nothing is handed to the dynamic allocator.
    Abort(MapToError),
}

/// Mathematical value of a [`HeapStep`].
pub enum StepView {
    MapPage { page: int, frame: int, flags: PageFlags, heap: HeapView },
    Register { start: int, size: int },
    Abort(MapToError),
}

/// Whether a heap of `size` bytes can start at `start`: it is not empty and
/// both its first and its last byte have canonical addresses.
pub open spec fn heap_range(start: int, size: int) -> bool {
    size >= 1 && is_canonical(start) && is_canonical(start + size - 1)
}

impl HeapView {
    /// Start of the first page of the range.
    pub open spec fn first_page(self) -> int {
        align_down(self.start)
    }

    /// Number of pages that cover the range, from the page of its first byte
    /// to the page of its last byte.
    pub open spec fn pages(self) -> nat {
        ((align_down(self.start + self.size - 1) - align_down(self.start)) / 4096 + 1) as nat
    }

    /// Start of the page numbered `k`, counting from 0.
    pub open spec fn page(self, k: nat) -> int {
        self.first_page() + 4096 * k
    }

    /// The same heap with one more page mapped.
    pub open spec fn one_more(self) -> HeapView {
        self.after(1)
    }

    /// The same heap with `k` more pages mapped.
    pub open spec fn after(self, k: nat) -> HeapView {
        HeapView { mapped: self.mapped + k, ..self }
    }

    /// The step that follows, given what the frame allocator yields when it
    /// is asked. With every page mapped the range is registered. Otherwise
    /// the next page is mapped, writable and present, to a fresh frame;
    /// without a frame the bootstrap is given up.
    pub open spec fn step(self, frame: Option<int>) -> StepView {
        if self.mapped >= self.pages() {
            StepView::Register { start: self.start, size: self.size }
        } else {
            match frame {
                Some(frame) => StepView::MapPage {
                    page: self.page(self.mapped),
                    frame,
                    flags: PageFlags { present: true, writable: true },
                    heap: self,
                },
                None => StepView::Abort(MapToError::FrameAllocationFailed),
            }
        }
    }
}

impl View for HeapBootstrap {
    type V = HeapView;

    closed spec fn view(&self) -> HeapView {
        HeapView { start: self.start as int, size: self.size as int, mapped: self.mapped as nat }
    }
}

impl View for PendingMap {
    type V = StepView;

    open spec fn view(&self) -> StepView {
        StepView::MapPage {
            page: self.spec_page(),
            frame: self.spec_frame(),
            flags: self.spec_flags(),
            heap: self.heap(),
        }
    }
}

impl View for HeapStep {
    type V = StepView;

    open spec fn view(&self) -> StepView {
        match *self {
            HeapStep::MapPage(pending) => pending@,
            HeapStep::Register { start, size } => StepView::Register {
                start: start as int,
                size: size as int,
            },
            HeapStep::Abort(error) => StepView::Abort(error),
        }
    }
}

impl HeapBootstrap {
    #[verifier::type_invariant]
    spec fn inv(&self) -> bool {
        &&& heap_range(self.start as int, self.size as int)
        &&& self.first_page == self@.first_page()
        &&& self.pages == self@.pages()
        &&& self.mapped <= self.pages
    }

    /// The bootstrap of a heap of `size` bytes at `start`, with no page
    /// mapped yet.
    pub fn new(start: u64, size: u64) -> (heap: Self)
        requires
            heap_range(start as int, size as int),
        ensures
            heap@ == (HeapView { start: start as int, size: size as int, mapped: 0 }),
    {
        let end = virt_add(start, size - 1);
        let first_page = page_start_containing(start);
        let last_page = page_start_containing(end);
        let pages = (last_page - first_page) / 4096 + 1;
        HeapBootstrap { start, size, first_page, pages, mapped: 0 }
    }

    /// Number of pages mapped so far.
    pub fn mapped(&self) -> (n: u64)
        ensures
            n == self@.mapped,
    {
        self.mapped
    }

    /// Number of pages that cover the heap.
    pub fn pages(&self) -> (n: u64)
        ensures
            n == self@.pages(),
    {
        proof {
            use_type_invariant(self);
        }
        self.pages
    }

    /// Decides the next step. A frame is taken from `alloc` exactly when a
    /// page is still to be mapped.
    pub fn next(self, alloc: &mut FirstZoneAlloc) -> (step: HeapStep)
        requires
            self@.mapped < self@.pages() ==> old(alloc).allocated() < usize::MAX,
        ensures
            step@ == self@.step(frame_at(old(alloc).regions(), old(alloc).allocated())),
            final(alloc).regions() == old(alloc).regions(),
            final(alloc).allocated() == old(alloc).allocated() + if self@.mapped < self@.pages() {
                1nat
            } else {
                0nat
            },
    {
        proof {
            use_type_invariant(&self);
        }
        if self.mapped >= self.pages {
            return HeapStep::Register { start: self.start, size: self.size };
        }
        match alloc.allocate_frame() {
            Some(frame) => {
                let page = self.first_page + 4096 * self.mapped;
                HeapStep::MapPage(
                    PendingMap {
                        page,
                        frame,
                        flags: PageFlags { present: true, writable: true },
                        bootstrap: self,
                    },
                )
            },
            None => HeapStep::Abort(MapToError::FrameAllocationFailed),
        }
    }
}

impl PendingMap {
    #[verifier::type_invariant]
    spec fn inv(&self) -> bool {
        self.bootstrap.mapped < self.bootstrap.pages
    }

    /// Start of the page to map.
    pub closed spec fn spec_page(&self) -> int {
        self.page as int
    }

    /// Start of the frame to map the page to.
    pub closed spec fn spec_frame(&self) -> int {
        self.frame.start()
    }

    /// The flags to map the page with.
    pub closed spec fn spec_flags(&self) -> PageFlags {
        self.flags
    }

    /// The heap as it was when the mapping was asked for.
    pub closed spec fn heap(&self) -> HeapView {
        self.bootstrap@
    }

    pub fn page(&self) -> (page: u64)
        ensures
            page == self.spec_page(),
    {
        self.page
    }

    pub fn frame(&self) -> (frame: Frame)
        ensures
            frame.start() == self.spec_frame(),
    {
        self.frame
    }

    pub fn flags(&self) -> (flags: PageFlags)
        ensures
            flags == self.spec_flags(),
    {
        self.flags
    }

    /// Takes note of how the mapping went. After a success the heap has one
    /// more page mapped; a failure ends the bootstrap with that error.
    pub fn resolve(self, outcome: Result<(), MapToError>) -> (r: Result<HeapBootstrap, MapToError>)
        ensures
            match outcome {
                Ok(()) => r.is_ok() && r.unwrap()@ == self.heap().one_more(),
                Err(error) => r == Err::<HeapBootstrap, MapToError>(error),
            },
    {
        proof {
            use_type_invariant(&self);
            use_type_invariant(&self.bootstrap);
        }
        match outcome {
            Ok(()) => {
                let PendingMap { bootstrap, .. } = self;
                Ok(
                    HeapBootstrap {
                        start: bootstrap.start,
                        size: bootstrap.size,
                        first_page: bootstrap.first_page,
                        pages: bootstrap.pages,
                        mapped: bootstrap.mapped + 1,
                    },
                )
            },
            Err(error) => Err(error),
        }
    }
}

/// The bootstrap of the kernel heap.
pub fn init_heap() -> (heap: HeapBootstrap)
    ensures
        heap@ == (HeapView { start: HEAP_START as int, size: HEAP_SIZE as int, mapped: 0 }),
{
    HeapBootstrap::new(HEAP_START, HEAP_SIZE)
}

/// A heap that starts on a page boundary and is a whole number of pages long
/// is covered by one page for every 4096 bytes.
pub proof fn lemma_aligned_heap_pages(heap: HeapView)
    requires
        heap.start >= 0,
        heap.size >= 1,
        heap.start % 4096 == 0,
        heap.size % 4096 == 0,
    ensures
        heap.pages() == heap.size / 4096,
{
}

/// With frames at hand and every mapping a success, a fresh bootstrap asks
/// for the pages of the heap one after the other, each once, and registers
/// the heap after exactly as many mappings as the heap has pages. Without a
/// frame for a page it gives up instead.
pub proof fn lemma_bootstrap_maps_every_page_once(start: int, size: int, k: nat, frame: int)
    requires
        k <= (HeapView { start, size, mapped: 0 }).pages(),
    ensures
        ({
            let fresh = HeapView { start, size, mapped: 0 };
            let heap = fresh.after(k);
            &&& k < fresh.pages() ==> heap.step(Some(frame)) == (StepView::MapPage {
                page: fresh.page(k),
                frame,
                flags: PageFlags { present: true, writable: true },
                heap,
            }) && heap.one_more() == fresh.after(k + 1)
            &&& k < fresh.pages() ==> heap.step(None) == StepView::Abort(
                MapToError::FrameAllocationFailed,
            )
            &&& k == fresh.pages() ==> heap.step(Some(frame)) == (StepView::Register { start, size })
                && heap.step(None) == (StepView::Register { start, size })
        }),
{
}

/// The heap is registered only once every page is mapped.
pub proof fn lemma_no_partial_heap_is_registered(heap: HeapView, frame: Option<int>)
    ensures
        heap.step(frame) is Register <==> heap.mapped >= heap.pages(),
        heap.step(frame) is Abort <==> heap.mapped < heap.pages() && frame.is_none(),
        heap.step(frame) is MapPage <==> heap.mapped < heap.pages() && frame.is_some(),
{
}

/// Pages of one heap do not share a frame, nor does a page share one with a
/// page table set up in between. Of two mappings, the later is for a higher
/// page, and any two calls of the allocator over regions that do not overlap
/// return different frames, whatever they are drawn for.
pub proof fn lemma_pages_do_not_share_frames(
    heap: HeapView,
    regions: Seq<MemoryRegion>,
    earlier: nat,
    later: nat,
    earlier_call: nat,
    later_call: nat,
)
    requires
        disjoint(regions),
        earlier < later,
        earlier_call < later_call,
        frame_at(regions, later_call).is_some(),
    ensures
        heap.page(earlier) < heap.page(later),
        frame_at(regions, earlier_call).is_some(),
        frame_at(regions, earlier_call).unwrap() != frame_at(regions, later_call).unwrap(),
{
    lemma_frames_differ(regions, earlier_call as int, later_call as int);
}

} // verus!
