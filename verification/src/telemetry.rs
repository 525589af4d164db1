//! Telemetry encoding: the bit-for-bit payload layout for a snapshot, and
//! the text frame handed to the publisher.
//!
//! The payload is `MEMORY_WORDS + 3` bytes: the low 8 bits of each memory
//! word in address order, then the low 8 bits of the accumulator, then the
//! low 8 bits of the instruction-address register, then a combined byte
//! computed as `(instruction >> 8) + (instruction & 0x1F)` — an addition,
//! deliberately not a bitwise or. The transport encoding chosen here is
//! base64 text of the payload in forward byte order.

use vstd::prelude::*;
use base64::Engine;
use crate::snapshot::{MachineSnapshot, MEMORY_WORDS};

verus! {

/// The low 8 bits of a 32-bit memory or accumulator word.
pub open spec fn low_byte(w: i32) -> u8 {
    (w & 0xFF) as u8
}

/// The low 8 bits of the 16-bit instruction-address register.
pub open spec fn low_byte_addr(a: u16) -> u8 {
    (a & 0xFF) as u8
}

/// The final payload byte: the instruction register's high byte plus its
/// low 5-bit field, truncated to a byte.
pub open spec fn combined_instruction_byte(ir: u16) -> u8 {
    (((ir >> 8) + (ir & 0x1F)) % 256) as u8
}

/// The telemetry payload of a snapshot: 35 bytes exactly.
pub open spec fn payload_spec(s: MachineSnapshot) -> Seq<u8> {
    Seq::new(35, |i: int|
        if i < 32 {
            low_byte(s.main_store[i])
        } else if i == 32 {
            low_byte(s.accumulator)
        } else if i == 33 {
            low_byte_addr(s.instruction_address)
        } else {
            combined_instruction_byte(s.instruction)
        })
}

/// What the external base64 encoder yields on given bytes (standard
/// alphabet, padded). The result is a function of the bytes alone.
pub uninterp spec fn base64_of(bytes: Seq<u8>) -> Seq<char>;

/// The text frame published for a snapshot: base64 of its payload.
pub open spec fn frame_spec(s: MachineSnapshot) -> Seq<char> {
    base64_of(payload_spec(s))
}

/// Relies on `base64::engine::Engine::encode` with the `STANDARD` engine:
/// it encodes the bytes alone, with padding, into `4 * ceil(n / 3)`
/// characters, and panics only when that length overflows `usize`.
#[verifier::external_body]
fn base64_encode(bytes: &Vec<u8>) -> (r: String)
    requires
        4 * bytes@.len() + 4 <= usize::MAX,
    ensures
        r@ == base64_of(bytes@),
        r@.len() == 4 * ((bytes@.len() + 2) / 3),
{
    base64::engine::general_purpose::STANDARD.encode(bytes)
}

/// Serialize a snapshot into its transport payload.
pub fn encode_snapshot(s: &MachineSnapshot) -> (r: Vec<u8>)
    ensures
        r@ == payload_spec(*s),
        r@.len() == 35,
{
    let mut out: Vec<u8> = Vec::new();
    let mut i: usize = 0;
    while i < 32
        invariant
            i <= 32,
            out@.len() == i,
            forall|k: int| 0 <= k < i ==> out@[k] == low_byte(s.main_store[k]),
        decreases 32 - i,
    {
        let w: i32 = s.main_store[i];
        proof {
            assert(0 <= (w & 0xFF) < 256) by (bit_vector);
        }
        out.push((w & 0xFF) as u8);
        i = i + 1;
    }
    let acc: i32 = s.accumulator;
    proof {
        assert(0 <= (acc & 0xFF) < 256) by (bit_vector);
    }
    out.push((acc & 0xFF) as u8);
    let addr: u16 = s.instruction_address;
    proof {
        assert(addr & 0xFF < 256) by (bit_vector);
    }
    out.push((addr & 0xFF) as u8);
    let ir: u16 = s.instruction;
    proof {
        assert(ir >> 8 <= 255 && ir & 0x1F <= 31) by (bit_vector);
    }
    let combined: u16 = (ir >> 8) + (ir & 0x1F);
    out.push((combined % 256) as u8);
    proof {
        assert(out@ =~= payload_spec(*s));
    }
    out
}

/// Serialize a snapshot and wrap it in the text transport encoding.
pub fn frame_snapshot(s: &MachineSnapshot) -> (r: String)
    ensures
        r@ == frame_spec(*s),
        r@.len() == 48,
{
    let payload = encode_snapshot(s);
    base64_encode(&payload)
}

/// The telemetry payload is exactly `MEMORY_WORDS + 3` bytes long, and it
/// decodes losslessly: byte `i` of the payload is the low 8 bits of memory
/// word `i`, byte 32 the low 8 bits of the accumulator, byte 33 the low
/// 8 bits of the instruction address, and byte 34 the combined
/// instruction byte.
pub proof fn lemma_payload_decodes(s: MachineSnapshot)
    ensures
        payload_spec(s).len() == MEMORY_WORDS + 3,
        forall|i: int| 0 <= i < 32 ==> payload_spec(s)[i] == low_byte(s.main_store[i]),
        payload_spec(s)[32] == low_byte(s.accumulator),
        payload_spec(s)[33] == low_byte_addr(s.instruction_address),
        payload_spec(s)[34] == combined_instruction_byte(s.instruction),
{
}

} // verus!
