//! The boundary to the external virtual-machine engine: one step of
//! execution and the assembler. Both are deterministic computations on
//! plain values; their results are given names that the rest of the
//! library's contracts speak of.
//!
//! The engine advances the instruction-address register and subtracts
//! memory words with unchecked arithmetic, masking only afterwards.
//! Outside the bounds that `step_in_bounds` spells out, its result is
//! build-dependent: an abort under overflow checks, wrapping without.
//! The library never hands the engine such a snapshot: `step` requires
//! the bounds, and `step_or_end` ends the run instead — the same
//! designed end-of-run as a stop instruction. That policy is the
//! library's own and is what the actor follows.

use vstd::prelude::*;
use crate::snapshot::{low_sixteen, MachineSnapshot};

verus! {

/// Whether the engine can execute the snapshot's next instruction within
/// its registers' bounds. The engine decodes the opcode from the high
/// three bits of the instruction register and the operand address from
/// its low five; the bounds follow its arithmetic, case by case:
/// a relative jump adds the operand word's low sixteen bits to the
/// instruction address in sixteen bits before masking; a negate refuses
/// the one word whose negation overflows; a subtract must stay within
/// the accumulator's range; and every advancing instruction increments
/// the instruction address (by two when a negative test skips) before
/// masking.
pub open spec fn step_in_bounds(s: MachineSnapshot) -> bool {
    let opcode = (s.instruction >> 13) & 7;
    let value = s.main_store@[(s.instruction & 0x1F) as int];
    if opcode == 4 {
        s.instruction_address + (value & 0xFFFF) <= 0xFFFF
    } else if opcode == 2 {
        value != i32::MIN && s.instruction_address < 0xFFFF
    } else if opcode == 6 {
        s.instruction_address < 0xFFFF
    } else if opcode == 1 || opcode == 5 {
        i32::MIN <= s.accumulator - value <= i32::MAX && s.instruction_address < 0xFFFF
    } else if opcode == 3 {
        if s.accumulator < 0 {
            s.instruction_address + 2 <= 0xFFFF
        } else {
            s.instruction_address + 1 <= 0xFFFF
        }
    } else {
        true
    }
}

/// Decide `step_in_bounds` for a snapshot.
pub fn is_step_safe(s: &MachineSnapshot) -> (r: bool)
    ensures
        r == step_in_bounds(*s),
{
    let instruction: u16 = s.instruction;
    let opcode: u16 = (instruction >> 13) & 7;
    proof {
        assert((instruction & 0x1F) < 32) by (bit_vector);
    }
    let operand: usize = (instruction & 0x1F) as usize;
    let value: i32 = s.main_store[operand];
    let ia: u32 = s.instruction_address as u32;
    if opcode == 4 {
        proof {
            assert(0 <= (value & 0xFFFF) <= 0xFFFF) by (bit_vector);
        }
        let offset: u32 = (value & 0xFFFF) as u32;
        ia + offset <= 0xFFFF
    } else if opcode == 2 {
        value != i32::MIN && ia < 0xFFFF
    } else if opcode == 6 {
        ia < 0xFFFF
    } else if opcode == 1 || opcode == 5 {
        let difference: i64 = (s.accumulator as i64) - (value as i64);
        (i32::MIN as i64) <= difference && difference <= (i32::MAX as i64) && ia < 0xFFFF
    } else if opcode == 3 {
        if s.accumulator < 0 {
            ia + 2 <= 0xFFFF
        } else {
            ia + 1 <= 0xFFFF
        }
    } else {
        true
    }
}

/// What one step of the external engine yields on a given in-bounds
/// snapshot: `Some` with the successor snapshot, or `None` when the
/// machine halts (a stop instruction). The result is a function of the
/// snapshot alone.
pub uninterp spec fn vm_step(s: MachineSnapshot) -> Option<MachineSnapshot>;

/// One step as the library executes it: an in-bounds snapshot is handed
/// to the engine; an out-of-bounds one ends the run, as a halt does.
pub open spec fn step_outcome(s: MachineSnapshot) -> Option<MachineSnapshot> {
    if step_in_bounds(s) {
        vm_step(s)
    } else {
        None
    }
}

/// What the external assembler yields on a given listing: the 32 program
/// words on success, or a diagnostic text on failure. The result is a
/// function of the listing and the notation flag alone.
pub uninterp spec fn assembled(listing: Seq<char>, og_notation: bool) -> Result<Seq<i32>, Seq<char>>;

/// Relies on `baby_emulator::core::BabyModel::execute`: the successor
/// model is computed from the model's registers and memory alone, with
/// `Err` reporting a stop; no other state is read or written. The
/// bounds exclude the inputs on which the engine's unchecked arithmetic
/// overflows.
#[verifier::external_body]
pub fn step(s: &MachineSnapshot) -> (r: Option<MachineSnapshot>)
    requires
        step_in_bounds(*s),
    ensures
        r == vm_step(*s),
{
    let model = baby_emulator::core::BabyModel {
        main_store: s.main_store,
        accumulator: s.accumulator,
        instruction_address: s.instruction_address,
        instruction: s.instruction,
    };
    match model.execute() {
        Ok(m) => Some(MachineSnapshot {
            main_store: m.main_store,
            accumulator: m.accumulator,
            instruction_address: m.instruction_address,
            instruction: m.instruction,
        }),
        Err(_) => None,
    }
}

/// One step, total over all snapshots: the engine steps an in-bounds
/// snapshot; an out-of-bounds one ends the run instead of being stepped.
pub fn step_or_end(s: &MachineSnapshot) -> (r: Option<MachineSnapshot>)
    ensures
        r == step_outcome(*s),
{
    if is_step_safe(s) {
        step(s)
    } else {
        None
    }
}

/// Relies on `baby_emulator::assembler::assemble` for the translation,
/// `BabyInstruction::to_numbers` to lay the linked instructions out as the
/// 32 memory words, and `AssemblyError::describe` for the diagnostic text
/// of a rejected listing. All three compute from their arguments alone.
#[verifier::external_body]
pub fn assemble_listing(listing: &String, og_notation: bool) -> (r: Result<[i32; 32], String>)
    ensures
        r matches Ok(words) ==> assembled(listing@, og_notation) matches Ok(w)
            && words@ == w,
        r matches Err(d) ==> assembled(listing@, og_notation) matches Err(e)
            && d@ == e,
{
    match baby_emulator::assembler::assemble(listing, og_notation) {
        Ok(baby_emulator::assembler::linker::LinkerData(instrs, _)) =>
            Ok(baby_emulator::core::instructions::BabyInstruction::to_numbers(instrs)),
        Err(e) => Err(e.describe(true)),
    }
}

/// Assemble a listing into a runnable snapshot: the 32 assembled words
/// become the machine's memory, execution set up to start at address
/// zero. A rejected listing yields the assembler's diagnostic text.
pub fn assemble_snapshot(listing: &String, og_notation: bool) -> (r: Result<
    MachineSnapshot,
    String,
>)
    ensures
        r matches Ok(s) ==> assembled(listing@, og_notation) matches Ok(w) && {
            &&& s.main_store@ == w
            &&& s.accumulator == 0
            &&& s.instruction_address == 0
            &&& s.instruction == low_sixteen(w[0])
        },
        r matches Err(d) ==> assembled(listing@, og_notation) matches Err(e) && d@ == e,
{
    match assemble_listing(listing, og_notation) {
        Ok(words) => Ok(MachineSnapshot::with_program(words)),
        Err(d) => Err(d),
    }
}

} // verus!
