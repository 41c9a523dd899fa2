//! Verified core of a small x86-64 kernel: text cursors and the VGA text
//! frame, interrupt vector layout and handler decisions, the boot-time
//! physical frame allocator, and the heap bootstrap.
//!
//! Everything here is pure logic over plain values. Port I/O, control
//! registers, descriptor-table loads and page-table edits are performed by the
//! surrounding program, which feeds their results back into this crate.

use vstd::prelude::*;

pub mod allocator;
pub mod cursor;
pub mod gdt;
pub mod interrupts;
pub mod memory;
pub mod vga;

verus! {

/// The steps that bring the machine up, in the order in which they are taken.
#[derive(Debug, Clone, Copy, PartialEq, Eq)]
pub enum BootStep {
    /// Load the segment descriptors and the task-state segment.
    LoadGdt,
    /// Load the interrupt vector table.
    LoadIdt,
    /// Remap and unmask the interrupt controllers.
    InitPics,
    /// Let interrupts through.
    EnableInterrupts,
    /// Create the address-space mapping, the frame allocator and the heap,
    /// in the order of [`MemoryStep`].
    InitMemory,
}

/// The parts of memory setup, in the order in which they are taken.
#[derive(Debug, Clone, Copy, PartialEq, Eq)]
pub enum MemoryStep {
    /// Wrap the active page tables, given the offset of the mirror of
    /// physical memory.
    CreateMapper,
    /// Set up the frame allocator over the memory map.
    CreateFrameAllocator,
    /// Map the heap with frames of the allocator and hand it to the dynamic
    /// allocator.
    InitHeap,
}

impl MemoryStep {
    /// Place of the part within memory setup.
    pub open spec fn rank(self) -> nat {
        match self {
            MemoryStep::CreateMapper => 0,
            MemoryStep::CreateFrameAllocator => 1,
            MemoryStep::InitHeap => 2,
        }
    }

    /// Place of the part in the whole boot sequence: memory setup is the
    /// last step, and its parts follow one another within it.
    pub open spec fn place(self) -> nat {
        BootStep::InitMemory.rank() + self.rank()
    }

    /// The part that follows this one; `None` after the last.
    pub fn next(self) -> (step: Option<MemoryStep>)
        ensures
            match step {
                Some(next) => next.rank() == self.rank() + 1,
                None => self == MemoryStep::InitHeap,
            },
    {
        match self {
            MemoryStep::CreateMapper => Some(MemoryStep::CreateFrameAllocator),
            MemoryStep::CreateFrameAllocator => Some(MemoryStep::InitHeap),
            MemoryStep::InitHeap => None,
        }
    }
}

impl BootStep {
    /// Place of the step in the boot sequence.
    pub open spec fn rank(self) -> nat {
        match self {
            BootStep::LoadGdt => 0,
            BootStep::LoadIdt => 1,
            BootStep::InitPics => 2,
            BootStep::EnableInterrupts => 3,
            BootStep::InitMemory => 4,
        }
    }

    /// The line that announces the step on the console.
    pub open spec fn spec_announcement(self) -> Seq<char> {
        match self {
            BootStep::LoadGdt => "Loading GDT..."@,
            BootStep::LoadIdt => "Loading IDT..."@,
            BootStep::InitPics => "Initializing PICS"@,
            BootStep::EnableInterrupts => "Enabling Interrupts"@,
            BootStep::InitMemory => "Creating Mapper, FrameAllocator and Heap"@,
        }
    }

    pub fn announcement(self) -> (line: &'static str)
        ensures
            line@ == self.spec_announcement(),
    {
        match self {
            BootStep::LoadGdt => "Loading GDT...",
            BootStep::LoadIdt => "Loading IDT...",
            BootStep::InitPics => "Initializing PICS",
            BootStep::EnableInterrupts => "Enabling Interrupts",
            BootStep::InitMemory => "Creating Mapper, FrameAllocator and Heap",
        }
    }

    /// The step that follows this one; `None` after the last.
    pub fn next(self) -> (step: Option<BootStep>)
        ensures
            match step {
                Some(next) => next.rank() == self.rank() + 1,
                None => self == BootStep::InitMemory,
            },
    {
        match self {
            BootStep::LoadGdt => Some(BootStep::LoadIdt),
            BootStep::LoadIdt => Some(BootStep::InitPics),
            BootStep::InitPics => Some(BootStep::EnableInterrupts),
            BootStep::EnableInterrupts => Some(BootStep::InitMemory),
            BootStep::InitMemory => None,
        }
    }
}

/// The step with which the boot sequence starts.
pub fn init() -> (step: BootStep)
    ensures
        step.rank() == 0,
{
    BootStep::LoadGdt
}

/// The part with which memory setup starts.
pub fn init_memory() -> (step: MemoryStep)
    ensures
        step.rank() == 0,
{
    MemoryStep::CreateMapper
}

/// A step is known by its place in the sequence, so the sequence is fixed:
/// descriptors first, then the vector table that refers to them, then the
/// interrupt controllers, and interrupts only once all three are in place;
/// memory comes last.
pub proof fn lemma_boot_order(a: BootStep, b: BootStep)
    ensures
        a.rank() == b.rank() ==> a == b,
        a.rank() < 5,
        BootStep::LoadGdt.rank() < BootStep::LoadIdt.rank() < BootStep::InitPics.rank()
            < BootStep::EnableInterrupts.rank() < BootStep::InitMemory.rank(),
{
}

/// Memory setup has a fixed order too: the mapper first, then the frame
/// allocator, then the heap, which needs both. All of it comes after every
/// other boot step, so after interrupts are let through, which in turn comes
/// after the descriptors, the vector table and the controllers.
pub proof fn lemma_memory_order(a: MemoryStep, b: MemoryStep, step: BootStep)
    ensures
        a.rank() == b.rank() ==> a == b,
        a.rank() < 3,
        MemoryStep::CreateMapper.place() < MemoryStep::CreateFrameAllocator.place()
            < MemoryStep::InitHeap.place(),
        step != BootStep::InitMemory ==> step.rank() < a.place(),
        BootStep::LoadGdt.rank() < BootStep::EnableInterrupts.rank(),
        BootStep::LoadIdt.rank() < BootStep::EnableInterrupts.rank(),
        BootStep::InitPics.rank() < BootStep::EnableInterrupts.rank(),
        BootStep::EnableInterrupts.rank() < a.place(),
{
}

} // verus!
