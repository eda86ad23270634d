//! Byte-level primitives shared by the notification and ancillary codecs.
//!
//! Both codecs read and write fixed-layout structures laid out as 32-bit
//! little-endian slots (see the layout convention in [`crate::consts`]).
//! The helpers here read a field at a byte offset, copy a byte range out of
//! a borrowed buffer into an owned vector, and append one slot to a buffer
//! under construction.

use vstd::bytes::*;
use vstd::prelude::*;
use vstd::slice::*;

verus! {

/// The 16-bit value stored little-endian at byte offset `off` of `b`.
pub open spec fn u16_at(b: Seq<u8>, off: int) -> u16 {
    spec_u16_from_le_bytes(b.subrange(off, off + 2))
}

/// The 32-bit value stored little-endian at byte offset `off` of `b`.
pub open spec fn u32_at(b: Seq<u8>, off: int) -> u32 {
    spec_u32_from_le_bytes(b.subrange(off, off + 4))
}

/// The signed 32-bit value stored little-endian at byte offset `off` of `b`,
/// read as the two's complement reinterpretation of the unsigned value.
pub open spec fn i32_at(b: Seq<u8>, off: int) -> i32 {
    u32_at(b, off) as i32
}

/// Reads the 16-bit little-endian value at byte offset `off`.
pub fn read_u16_at(b: &[u8], off: usize) -> (x: u16)
    requires
        off + 2 <= b@.len(),
    ensures
        x == u16_at(b@, off as int),
{
    let n: usize = b.len();
    proof {
        assert(off + 2 <= n);
    }
    let s = slice_subrange(b, off, off + 2);
    u16_from_le_bytes(s)
}

/// Reads the 32-bit little-endian value at byte offset `off`.
pub fn read_u32_at(b: &[u8], off: usize) -> (x: u32)
    requires
        off + 4 <= b@.len(),
    ensures
        x == u32_at(b@, off as int),
{
    let n: usize = b.len();
    proof {
        assert(off + 4 <= n);
    }
    let s = slice_subrange(b, off, off + 4);
    u32_from_le_bytes(s)
}

/// Reads the signed 32-bit little-endian value at byte offset `off`.
pub fn read_i32_at(b: &[u8], off: usize) -> (x: i32)
    requires
        off + 4 <= b@.len(),
    ensures
        x == i32_at(b@, off as int),
{
    let w = read_u32_at(b, off);
    #[verifier::truncate] (w as i32)
}

/// Copies the bytes `start..end` of `b` into an owned vector.
pub fn bytes_range(b: &[u8], start: usize, end: usize) -> (v: Vec<u8>)
    requires
        start <= end <= b@.len(),
    ensures
        v@ == b@.subrange(start as int, end as int),
{
    let s = slice_subrange(b, start, end);
    slice_to_vec(s)
}

/// Compares two owned byte buffers by contents.
pub fn bytes_eq(a: &Vec<u8>, b: &Vec<u8>) -> (r: bool)
    ensures
        r == (a@ == b@),
{
    if a.len() != b.len() {
        return false;
    }
    let mut i: usize = 0;
    while i < a.len()
        invariant
            a@.len() == b@.len(),
            i <= a@.len(),
            forall|j: int| 0 <= j < i ==> a@[j] == b@[j],
        decreases a@.len() - i,
    {
        if a[i] != b[i] {
            return false;
        }
        i += 1;
    }
    proof {
        assert(a@ =~= b@);
    }
    true
}

/// Appends the 32-bit value `x` as one little-endian slot.
pub fn push_u32_slot(v: &mut Vec<u8>, x: u32)
    ensures
        final(v)@ == old(v)@ + spec_u32_to_le_bytes(x),
{
    let mut bs = u32_to_le_bytes(x);
    v.append(&mut bs);
}

/// A 16-bit value as one 32-bit slot: the value in the low two bytes, the
/// high two bytes zero.
pub open spec fn spec_u16_slot(x: u16) -> Seq<u8> {
    spec_u16_to_le_bytes(x) + seq![0u8, 0u8]
}

/// Appends the 16-bit value `x` as one slot: two little-endian bytes and two
/// zero bytes.
pub fn push_u16_slot(v: &mut Vec<u8>, x: u16)
    ensures
        final(v)@ == old(v)@ + spec_u16_slot(x),
{
    let mut bs = u16_to_le_bytes(x);
    v.append(&mut bs);
    v.push(0);
    v.push(0);
    proof {
        assert(v@ =~= old(v)@ + spec_u16_slot(x));
    }
}

/// Appends the signed 32-bit value `x` as one slot, in two's complement.
pub fn push_i32_slot(v: &mut Vec<u8>, x: i32)
    ensures
        final(v)@ == old(v)@ + spec_u32_to_le_bytes(x as u32),
{
    push_u32_slot(v, #[verifier::truncate] (x as u32));
}

/// Law: a signed slot decodes to the value it was encoded from; writing an
/// `i32` in two's complement and reinterpreting the unsigned reading is the
/// identity.
pub proof fn lemma_i32_slot_round_trip(x: i32)
    ensures
        (x as u32) as i32 == x,
{
    assert((x as u32) as i32 == x) by (bit_vector);
}

} // verus!
