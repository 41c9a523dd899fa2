//! The interrupt stack table of the task-state segment: the alternate stacks
//! that the CPU can switch to when it enters a handler.

use crate::memory::{is_canonical, virt_add};
use vstd::prelude::*;

verus! {

/// Slot of the interrupt stack table that is reserved for double faults.
pub const DOUBLE_FAULT_INDEX: u16 = 0;

/// Bytes of the stack that is reserved for double faults.
pub const STACK_SIZE: u64 = 4096 * 5;

/// Number of slots in the interrupt stack table.
pub const STACK_SLOTS: usize = 7;

/// The interrupt stack table. A slot holds the address just above a stack,
/// from where the stack grows down, or 0 where there is no stack.
pub struct InterruptStackTable {
    slots: [u64; STACK_SLOTS],
}

impl View for InterruptStackTable {
    type V = Seq<u64>;

    closed spec fn view(&self) -> Seq<u64> {
        self.slots@
    }
}

/// The table that holds the stack for double faults and no other: the slot
/// reserved for it holds the address just above the stack.
pub open spec fn emergency_stacks(stack_start: u64) -> Seq<u64> {
    Seq::new(
        STACK_SLOTS as nat,
        |i: int|
            if i == DOUBLE_FAULT_INDEX {
                (stack_start + STACK_SIZE) as u64
            } else {
                0u64
            },
    )
}

impl InterruptStackTable {
    /// The address just above the stack in slot `index`; `None` where the
    /// table has no such slot or the slot has no stack.
    pub fn stack_top(&self, index: u16) -> (top: Option<u64>)
        ensures
            top == if index < STACK_SLOTS && self@[index as int] != 0 {
                Some(self@[index as int])
            } else {
                None
            },
    {
        if (index as usize) < STACK_SLOTS && self.slots[index as usize] != 0 {
            Some(self.slots[index as usize])
        } else {
            None
        }
    }
}

/// Builds the interrupt stack table for an emergency stack of `STACK_SIZE`
/// bytes that starts at `stack_start`.
pub fn init(stack_start: u64) -> (table: InterruptStackTable)
    requires
        is_canonical(stack_start as int),
        is_canonical(stack_start + STACK_SIZE),
    ensures
        table@ == emergency_stacks(stack_start),
{
    let stack_end = virt_add(stack_start, STACK_SIZE);
    let mut slots = [0u64; STACK_SLOTS];
    slots[DOUBLE_FAULT_INDEX as usize] = stack_end;
    let table = InterruptStackTable { slots };
    table
}

} // verus!
