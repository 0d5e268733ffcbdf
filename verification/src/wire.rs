//! Fixed-width little-endian fields inside byte buffers.

use crate::address::Address;
use vstd::bytes::{
    lemma_auto_spec_u64_to_from_le_bytes, spec_u64_from_le_bytes, spec_u64_to_le_bytes,
    spec_u64_to_le_bytes_to_open, u64_from_le_bytes, u64_to_le_bytes,
};
use vstd::prelude::*;

verus! {

/// The eight little-endian bytes of a signed 64-bit integer in two's
/// complement.
pub open spec fn spec_i64_to_le_bytes(x: i64) -> Seq<u8> {
    spec_u64_to_le_bytes(x as u64)
}

/// The signed 64-bit integer that eight little-endian bytes hold in two's
/// complement.
pub open spec fn spec_i64_from_le_bytes(s: Seq<u8>) -> i64 {
    spec_u64_from_le_bytes(s) as i64
}

/// The number that eight bytes stand for when the first is the least
/// significant.
pub open spec fn spec_le_value(s: Seq<u8>) -> nat {
    (s[0] + s[1] * 0x100 + s[2] * 0x1_0000 + s[3] * 0x100_0000 + s[4] * 0x1_0000_0000 + s[5]
        * 0x100_0000_0000 + s[6] * 0x1_0000_0000_0000 + s[7] * 0x100_0000_0000_0000) as nat
}

/// The eight bytes of an unsigned integer stand for that integer.
pub proof fn lemma_u64_le_bytes_value(x: u64)
    ensures
        spec_u64_to_le_bytes(x).len() == 8,
        spec_le_value(spec_u64_to_le_bytes(x)) == x,
{
    spec_u64_to_le_bytes_to_open(x);
    let s = spec_u64_to_le_bytes(x);
    assert(x == (x & 0xff) + ((x >> 8) & 0xff) * 0x100 + ((x >> 16) & 0xff) * 0x1_0000 + ((x
        >> 24) & 0xff) * 0x100_0000 + ((x >> 32) & 0xff) * 0x1_0000_0000 + ((x >> 40) & 0xff)
        * 0x100_0000_0000 + ((x >> 48) & 0xff) * 0x1_0000_0000_0000 + ((x >> 56) & 0xff)
        * 0x100_0000_0000_0000) by (bit_vector);
    assert((x & 0xff) < 0x100 && ((x >> 8) & 0xff) < 0x100 && ((x >> 16) & 0xff) < 0x100 && ((x
        >> 24) & 0xff) < 0x100 && ((x >> 32) & 0xff) < 0x100 && ((x >> 40) & 0xff) < 0x100 && ((x
        >> 48) & 0xff) < 0x100 && ((x >> 56) & 0xff) < 0x100) by (bit_vector);
}

/// The eight bytes of a signed integer stand for the integer itself where
/// it is not negative, and for the integer plus two to the 64th where it
/// is.
pub proof fn lemma_i64_le_bytes_value(x: i64)
    ensures
        spec_i64_to_le_bytes(x).len() == 8,
        spec_le_value(spec_i64_to_le_bytes(x)) == if x >= 0 {
            x as int
        } else {
            x + 0x1_0000_0000_0000_0000
        },
{
    lemma_u64_le_bytes_value(x as u64);
    assert(x >= 0 ==> (x as u64) == x) by (bit_vector);
    assert(x < 0 ==> (x as u64) == x + 0x1_0000_0000_0000_0000) by (bit_vector);
}

/// Encoding a signed integer and decoding it again gives the integer, and
/// decoding eight bytes and encoding the result gives the bytes.
pub proof fn lemma_i64_le_bytes_round_trip()
    ensures
        forall|x: i64| #[trigger]
            spec_i64_to_le_bytes(x).len() == 8 && spec_i64_from_le_bytes(spec_i64_to_le_bytes(x))
                == x,
        forall|s: Seq<u8>|
            s.len() == 8 ==> #[trigger] spec_i64_to_le_bytes(spec_i64_from_le_bytes(s)) == s,
{
    lemma_auto_spec_u64_to_from_le_bytes();
    assert forall|x: i64| #[trigger]
        spec_i64_to_le_bytes(x).len() == 8 && spec_i64_from_le_bytes(spec_i64_to_le_bytes(x))
            == x by {
        assert((x as u64) as i64 == x) by (bit_vector);
    }
    assert forall|s: Seq<u8>| s.len() == 8 implies #[trigger] spec_i64_to_le_bytes(
        spec_i64_from_le_bytes(s),
    ) == s by {
        let y = spec_u64_from_le_bytes(s);
        assert((y as i64) as u64 == y) by (bit_vector);
    }
}

/// Reads the unsigned 64-bit integer at `input[at..at + 8]`.
pub fn read_u64(input: &[u8], at: usize) -> (value: u64)
    requires
        at + 8 <= input@.len(),
    ensures
        value == spec_u64_from_le_bytes(input@.subrange(at as int, at + 8)),
{
    assert(input@.len() == input.len());
    u64_from_le_bytes(vstd::slice::slice_subrange(input, at, at + 8))
}

/// Reads the signed 64-bit integer at `input[at..at + 8]`.
pub fn read_i64(input: &[u8], at: usize) -> (value: i64)
    requires
        at + 8 <= input@.len(),
    ensures
        value == spec_i64_from_le_bytes(input@.subrange(at as int, at + 8)),
{
    read_u64(input, at) as i64
}

/// Reads the address at `input[at..at + 32]`.
pub fn read_address(input: &[u8], at: usize) -> (address: Address)
    requires
        at + 32 <= input@.len(),
    ensures
        address == Address::from_seq(input@.subrange(at as int, at + 32)),
{
    assert(input@.len() == input.len());
    let mut bytes = [0u8; 32];
    let mut i: usize = 0;
    while i < 32
        invariant
            i <= 32,
            at + 32 <= input@.len() <= usize::MAX,
            forall|j: int| 0 <= j < i ==> bytes[j] == input@[at + j],
        decreases 32 - i,
    {
        bytes[i] = input[at + i];
        i += 1;
    }
    let address = Address { bytes };
    proof {
        assert(address@ =~= input@.subrange(at as int, at + 32));
        address.lemma_from_view();
    }
    address
}

/// What a buffer holds after `src` was written into it from `at` on.
pub open spec fn spec_write(dst: Seq<u8>, at: int, src: Seq<u8>) -> Seq<u8> {
    dst.subrange(0, at) + src + dst.subrange(at + src.len(), dst.len() as int)
}

/// Copies `src` into `dst[at..at + src.len()]` and leaves the rest as it is.
pub fn write_bytes(dst: &mut [u8], at: usize, src: &[u8])
    requires
        at + src@.len() <= old(dst)@.len(),
    ensures
        final(dst)@ == spec_write(old(dst)@, at as int, src@),
{
    assert(dst@.len() == dst.len());
    let n = src.len();
    let mut i: usize = 0;
    while i < n
        invariant
            i <= n == src@.len(),
            at + n <= dst@.len() == old(dst)@.len() <= usize::MAX,
            forall|j: int| 0 <= j < i ==> dst@[at + j] == src@[j],
            forall|j: int| 0 <= j < at || at + i <= j < dst@.len() ==> dst@[j] == old(dst)@[j],
        decreases n - i,
    {
        dst[at + i] = src[i];
        i += 1;
    }
    assert(dst@ =~= spec_write(old(dst)@, at as int, src@));
}

/// Writes the eight little-endian bytes of `value` at `dst[at..at + 8]`.
pub fn write_u64(dst: &mut [u8], at: usize, value: u64)
    requires
        at + 8 <= old(dst)@.len(),
    ensures
        final(dst)@ == spec_write(old(dst)@, at as int, spec_u64_to_le_bytes(value)),
{
    let bytes = u64_to_le_bytes(value);
    write_bytes(dst, at, bytes.as_slice());
}

/// Writes the eight little-endian bytes of `value` at `dst[at..at + 8]`.
pub fn write_i64(dst: &mut [u8], at: usize, value: i64)
    requires
        at + 8 <= old(dst)@.len(),
    ensures
        final(dst)@ == spec_write(old(dst)@, at as int, spec_i64_to_le_bytes(value)),
{
    write_u64(dst, at, value as u64);
}

} // verus!
