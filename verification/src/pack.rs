//! Byte layouts handed to the GPU.
//!
//! The shaders read fixed-layout little-endian records (uniform and
//! storage buffers, push constants). Instead of reinterpreting struct
//! memory, the payloads are laid out byte by byte here, with the
//! layout stated in the contract: word `j` of a record occupies bytes
//! `4j .. 4j+4`, least significant first. Float fields travel as their
//! bit patterns, produced by the GPU glue.
use vstd::prelude::*;

verus! {

/// Little-endian byte `k` of a 32-bit word.
pub open spec fn le_byte(v: u32, k: int) -> u8 {
    ((v >> (8 * k)) & 0xFF) as u8
}

/// Append the four little-endian bytes of one word.
pub fn push_u32_le(out: &mut Vec<u8>, v: u32)
    ensures
        final(out)@.len() == old(out)@.len() + 4,
        forall|k: int| 0 <= k < old(out)@.len() ==> final(out)@[k] == old(out)@[k],
        forall|k: int|
            0 <= k < 4 ==> final(out)@[old(out)@.len() + k] == le_byte(v, k),
{
    proof {
        assert((v >> 0) & 0xFF < 256 && (v >> 8) & 0xFF < 256 && (v >> 16) & 0xFF < 256 && (v
            >> 24) & 0xFF < 256 && (v & 0xFF) == ((v >> 0) & 0xFF)) by (bit_vector);
    }
    out.push((v & 0xFF) as u8);
    out.push(((v >> 8) & 0xFF) as u8);
    out.push(((v >> 16) & 0xFF) as u8);
    out.push(((v >> 24) & 0xFF) as u8);
}

/// Lay out a slice of words, four bytes each, little endian.
pub fn pack_u32s_le(vals: &Vec<u32>) -> (b: Vec<u8>)
    ensures
        b@.len() == 4 * vals@.len(),
        forall|j: int, k: int|
            0 <= j < vals@.len() && 0 <= k < 4 ==> b@[4 * j + k] == le_byte(vals@[j], k),
{
    let mut out: Vec<u8> = Vec::new();
    let mut j: usize = 0;
    while j < vals.len()
        invariant
            j <= vals@.len(),
            out@.len() == 4 * j,
            forall|q: int, k: int|
                0 <= q < j && 0 <= k < 4 ==> out@[4 * q + k] == le_byte(vals@[q], k),
        decreases vals@.len() - j,
    {
        push_u32_le(&mut out, vals[j]);
        j = j + 1;
    }
    out
}

/// The digital clock's 16-byte per-draw payload: the two flag words,
/// the palette selector, and the timestamp's f32 bit pattern.
pub fn pack_clock_data(flags0: u32, flags1: u32, selector: u32, timestamp_bits: u32) -> (b: Vec<
    u8,
>)
    ensures
        b@.len() == 16,
        forall|k: int|
            0 <= k < 4 ==> b@[k] == le_byte(flags0, k) && b@[4 + k] == le_byte(flags1, k) && b@[8
                + k] == le_byte(selector, k) && b@[12 + k] == le_byte(timestamp_bits, k),
{
    let mut out: Vec<u8> = Vec::new();
    push_u32_le(&mut out, flags0);
    push_u32_le(&mut out, flags1);
    push_u32_le(&mut out, selector);
    push_u32_le(&mut out, timestamp_bits);
    out
}

/// The 32-byte drawspace uniform record: scale, extent and resolution
/// pairs, then the density, all as f32 bit patterns, then four bytes
/// of padding to the record's 8-byte alignment.
pub fn pack_drawspace_scales(
    scale_x_bits: u32,
    scale_y_bits: u32,
    extent_x_bits: u32,
    extent_y_bits: u32,
    resolution_x_bits: u32,
    resolution_y_bits: u32,
    density_bits: u32,
) -> (b: Vec<u8>)
    ensures
        b@.len() == 32,
        forall|k: int|
            0 <= k < 4 ==> b@[k] == le_byte(scale_x_bits, k) && b@[4 + k] == le_byte(
                scale_y_bits,
                k,
            ) && b@[8 + k] == le_byte(extent_x_bits, k) && b@[12 + k] == le_byte(extent_y_bits, k)
                && b@[16 + k] == le_byte(resolution_x_bits, k) && b@[20 + k] == le_byte(
                resolution_y_bits,
                k,
            ) && b@[24 + k] == le_byte(density_bits, k) && b@[28 + k] == 0,
{
    let mut out: Vec<u8> = Vec::new();
    push_u32_le(&mut out, scale_x_bits);
    push_u32_le(&mut out, scale_y_bits);
    push_u32_le(&mut out, extent_x_bits);
    push_u32_le(&mut out, extent_y_bits);
    push_u32_le(&mut out, resolution_x_bits);
    push_u32_le(&mut out, resolution_y_bits);
    push_u32_le(&mut out, density_bits);
    push_u32_le(&mut out, 0);
    proof {
        assert((0u32 >> 0) & 0xFF == 0 && (0u32 >> 8) & 0xFF == 0 && (0u32 >> 16) & 0xFF == 0 && (
        0u32 >> 24) & 0xFF == 0) by (bit_vector);
        assert(le_byte(0u32, 0) == 0 && le_byte(0u32, 1) == 0 && le_byte(0u32, 2) == 0 && le_byte(
            0u32,
            3,
        ) == 0);
    }
    out
}

} // verus!
