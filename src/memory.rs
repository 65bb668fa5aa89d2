//! The machine's storage: address space, registers, call stack and timers.

use vstd::prelude::*;

verus! {

/// Bytes in the address space.
pub const MEMORY_SIZE: usize = 4096;

/// General registers; the last one is the flag register.
pub const REGISTER_COUNT: usize = 16;

/// The flag register, written by arithmetic and draw instructions.
pub const FLAG: usize = 15;

/// Return addresses that the call stack can hold.
pub const STACK_DEPTH: usize = 16;

/// Where a program image is loaded and where execution starts.
pub const LOAD_BASE: u16 = 0x200;

/// The address space, register file, call stack and timers of one machine.
pub struct Memory {
    pub addr_mem: Vec<u8>,
    pub reg: Vec<u8>,
    pub i: u16,
    pub pc: u16,
    /// Stack slots; those below `sp` are live, the innermost call last.
    pub stack: Vec<u16>,
    pub sp: u8,
    pub delay: u8,
    pub sound: u8,
}

impl Memory {
    /// Every buffer has its fixed size and the stack pointer is in range.
    pub open spec fn wf(&self) -> bool {
        &&& self.addr_mem@.len() == MEMORY_SIZE
        &&& self.reg@.len() == REGISTER_COUNT
        &&& self.stack@.len() == STACK_DEPTH
        &&& self.sp <= STACK_DEPTH
    }

    /// The live return addresses, the innermost call last.
    pub open spec fn live_stack(&self) -> Seq<u16> {
        self.stack@.subrange(0, self.sp as int)
    }
}

} // verus!
