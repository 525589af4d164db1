//! The machine snapshot: a point-in-time copy of the virtual machine's
//! registers and memory, passed and stored by value.

use vstd::prelude::*;

verus! {

/// Number of words in the machine's memory.
pub const MEMORY_WORDS: usize = 32;

/// A point-in-time state of the virtual machine: 32 signed 32-bit memory
/// words, a 32-bit accumulator, a 16-bit instruction-address register and a
/// 16-bit instruction register.
#[derive(Clone, Copy, PartialEq, Debug)]
pub struct MachineSnapshot {
    /// The machine's memory, in address order.
    pub main_store: [i32; 32],
    /// The accumulator register.
    pub accumulator: i32,
    /// The instruction-address register (program counter).
    pub instruction_address: u16,
    /// The instruction register.
    pub instruction: u16,
}

impl MachineSnapshot {
    /// A blank machine: all memory words and registers zero.
    pub fn new() -> (r: MachineSnapshot)
        ensures
            r.main_store@ == Seq::<i32>::new(32, |i: int| 0i32),
            r.accumulator == 0,
            r.instruction_address == 0,
            r.instruction == 0,
    {
        let r = MachineSnapshot {
            main_store: [0i32; 32],
            accumulator: 0,
            instruction_address: 0,
            instruction: 0,
        };
        proof {
            assert(r.main_store@ =~= Seq::<i32>::new(32, |i: int| 0i32));
        }
        r
    }

    /// A machine loaded with a program: execution starts at address zero,
    /// with the first memory word already fetched into the instruction
    /// register (its low 16 bits).
    pub fn with_program(main_store: [i32; 32]) -> (r: MachineSnapshot)
        ensures
            r.main_store@ == main_store@,
            r.accumulator == 0,
            r.instruction_address == 0,
            r.instruction == low_sixteen(main_store[0]),
    {
        let word0: i32 = main_store[0];
        proof {
            assert(0 <= (word0 & 0xFFFF) <= 0xFFFF) by (bit_vector);
        }
        MachineSnapshot {
            main_store,
            accumulator: 0,
            instruction_address: 0,
            instruction: (word0 & 0xFFFF) as u16,
        }
    }
}

/// The low 16 bits of a memory word, as they land in the 16-bit
/// instruction register.
pub open spec fn low_sixteen(w: i32) -> u16 {
    (w & 0xFFFF) as u16
}

} // verus!
