//! The layout of the state in stable memory across an upgrade: the length
//! of the encoded state as a little-endian `u32`, then the encoding.
use crate::bytes::push_range;
use vstd::prelude::*;

verus! {

/// The four little-endian bytes of `n`.
pub open spec fn le_u32_bytes(n: u32) -> Seq<u8> {
    seq![
        (n % 256) as u8,
        ((n / 256) % 256) as u8,
        ((n / 65536) % 256) as u8,
        (n / 16777216) as u8,
    ]
}

/// The number that four little-endian bytes stand for.
pub open spec fn le_u32_value(b: Seq<u8>) -> int {
    b[0] + 256 * b[1] + 65536 * b[2] + 16777216 * b[3]
}

/// What is written to stable memory before an upgrade: the length of the
/// encoded state (cut to 32 bits), then the encoding.
pub open spec fn spec_frame(state_bytes: Seq<u8>) -> Seq<u8> {
    le_u32_bytes(state_bytes.len() as u32) + state_bytes
}

/// Frames the encoded state for stable memory.
pub fn frame_state_bytes(state_bytes: &[u8]) -> (r: Vec<u8>)
    ensures
        r@ == spec_frame(state_bytes@),
{
    let len = state_bytes.len() as u32;
    let mut r: Vec<u8> = Vec::new();
    r.push((len % 256) as u8);
    r.push(((len / 256) % 256) as u8);
    r.push(((len / 65536) % 256) as u8);
    r.push((len / 16777216) as u8);
    push_range(&mut r, state_bytes, 0, state_bytes.len());
    assert(state_bytes@.subrange(0, state_bytes@.len() as int) =~= state_bytes@);
    assert(r@ =~= spec_frame(state_bytes@));
    r
}

/// A stable memory that holds a whole frame: the length and that many
/// bytes after it.
pub open spec fn holds_frame(memory: Seq<u8>) -> bool {
    memory.len() >= 4 && 4 + le_u32_value(memory) <= memory.len()
}

/// The encoded state that a framed stable memory holds.
pub open spec fn spec_unframe(memory: Seq<u8>) -> Seq<u8> {
    memory.subrange(4, 4 + le_u32_value(memory))
}

/// Reads the encoded state back after an upgrade: the length from the
/// first four bytes, then that many bytes.
pub fn read_framed_state(memory: &[u8]) -> (r: Vec<u8>)
    requires
        holds_frame(memory@),
    ensures
        r@ == spec_unframe(memory@),
{
    let len: u32 = memory[0] as u32 + 256 * (memory[1] as u32) + 65536 * (memory[2] as u32)
        + 16777216 * (memory[3] as u32);
    let mut r: Vec<u8> = Vec::new();
    push_range(&mut r, memory, 4, 4 + len as usize);
    r
}

/// What is read back after an upgrade is what was written before it,
/// whatever stable memory holds after the frame, as long as the length of
/// the encoded state fits in 32 bits.
pub proof fn law_upgrade_round_trip(state_bytes: Seq<u8>, rest: Seq<u8>)
    requires
        state_bytes.len() <= u32::MAX,
    ensures
        holds_frame(spec_frame(state_bytes) + rest),
        spec_unframe(spec_frame(state_bytes) + rest) == state_bytes,
{
    let n = state_bytes.len() as u32;
    let m = spec_frame(state_bytes) + rest;
    assert(le_u32_value(m) == n as int);
    assert(m.subrange(4, 4 + n) =~= state_bytes);
}

/// The length of the encoded state that the first four bytes of a frame
/// give.
pub fn frame_length(header: &[u8]) -> (r: u32)
    requires
        header@.len() >= 4,
    ensures
        r == le_u32_value(header@),
{
    header[0] as u32 + 256 * (header[1] as u32) + 65536 * (header[2] as u32) + 16777216 * (
    header[3] as u32)
}

} // verus!
