//! Reading and writing fixed-width fields of a byte buffer.

use crate::address::Address;
use vstd::bytes::*;
use vstd::prelude::*;
use vstd::slice::slice_subrange;

verus! {

/// The byte that stands for a flag: one for true, zero for false.
pub open spec fn flag_byte(flag: bool) -> u8 {
    if flag {
        1u8
    } else {
        0u8
    }
}

/// The unsigned number with the same 64 bits as a signed one.
pub open spec fn bits_of(x: i64) -> u64 {
    if x >= 0 {
        x as u64
    } else {
        (x + 0x1_0000_0000_0000_0000) as u64
    }
}

/// The signed number with the same 64 bits as an unsigned one.
pub open spec fn signed_of(bits: u64) -> i64 {
    if bits < 0x8000_0000_0000_0000 {
        bits as i64
    } else {
        (bits - 0x1_0000_0000_0000_0000) as i64
    }
}

/// Both directions between a signed number and its bits undo each other.
pub proof fn lemma_bits_round_trip(x: i64, bits: u64)
    ensures
        signed_of(bits_of(x)) == x,
        bits_of(signed_of(bits)) == bits,
{
}

/// The unsigned number with the same 64 bits as `x`.
pub fn i64_bits(x: i64) -> (bits: u64)
    ensures
        bits == bits_of(x),
{
    if x >= 0 {
        x as u64
    } else {
        let shifted: i64 = (x + i64::MAX) + 1;
        (shifted as u64) + 0x8000_0000_0000_0000u64
    }
}

/// The signed number with the same 64 bits as `bits`.
pub fn i64_from_bits(bits: u64) -> (x: i64)
    ensures
        x == signed_of(bits),
{
    if bits < 0x8000_0000_0000_0000u64 {
        bits as i64
    } else {
        let low: u64 = bits - 0x8000_0000_0000_0000u64;
        ((low as i64) - i64::MAX) - 1
    }
}

/// Reads the little-endian number in the eight bytes from `at` on.
pub fn read_u64(data: &[u8], at: usize) -> (x: u64)
    requires
        at + 8 <= data@.len(),
    ensures
        x == spec_u64_from_le_bytes(data@.subrange(at as int, at + 8)),
{
    let len = data.len();
    assert(at + 8 <= len);
    let part = slice_subrange(data, at, at + 8);
    u64_from_le_bytes(part)
}

/// Reads the address in the 32 bytes from `at` on.
pub fn read_address(data: &[u8], at: usize) -> (a: Address)
    requires
        at + 32 <= data@.len(),
    ensures
        a@ == data@.subrange(at as int, at + 32),
{
    let len = data.len();
    let mut bytes: [u8; 32] = [0u8; 32];
    let mut i: usize = 0;
    while i < 32
        invariant
            i <= 32,
            at + 32 <= data@.len(),
            data@.len() == len,
            forall|j: int| 0 <= j < i ==> bytes[j] == data@[at + j],
        decreases 32 - i,
    {
        bytes[i] = data[at + i];
        i += 1;
    }
    let a = Address::new(bytes);
    assert(a@ =~= data@.subrange(at as int, at + 32));
    a
}

/// Appends the bytes of `part` to `out`.
pub fn append(out: &mut Vec<u8>, part: &[u8])
    ensures
        final(out)@ == old(out)@ + part@,
{
    let ghost before = out@;
    let mut i: usize = 0;
    while i < part.len()
        invariant
            i <= part@.len(),
            out@ == before + part@.subrange(0, i as int),
        decreases part@.len() - i,
    {
        out.push(part[i]);
        i += 1;
        assert(out@ =~= before + part@.subrange(0, i as int));
    }
    assert(part@.subrange(0, part@.len() as int) =~= part@);
}

/// Appends the 32 bytes of an address to `out`.
pub fn append_address(out: &mut Vec<u8>, a: &Address)
    ensures
        final(out)@ == old(out)@ + a@,
{
    let bytes = a.to_vec();
    append(out, bytes.as_slice());
}

/// Appends the eight little-endian bytes of `x` to `out`.
pub fn append_u64(out: &mut Vec<u8>, x: u64)
    ensures
        final(out)@ == old(out)@ + spec_u64_to_le_bytes(x),
{
    let bytes = u64_to_le_bytes(x);
    append(out, bytes.as_slice());
}

} // verus!
