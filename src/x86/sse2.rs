//! SSE2 loads and stores of integer data.
use vstd::prelude::*;

use crate::lane::splice;
use crate::ops::{copy_bytes, zero_extend, zero_extend_bytes};
use crate::traits::{
    Is128BitsUnaligned, Is16BitsUnaligned, Is32BitsUnaligned, Is64BitsUnaligned, Unaligned,
};
use crate::x86::__m128i;

verus! {

/// Loads a 64-bit integer from the first eight bytes of memory into the low
/// lane; the high lane is zero.
pub fn _mm_loadl_epi64<T: Is128BitsUnaligned>(mem_addr: &T) -> (r: __m128i)
    ensures
        r@ == zero_extend(mem_addr.mem_bytes().subrange(0, 8), 16),
{
    let b = mem_addr.read_bytes();
    let mut out = [0u8; 16];
    copy_bytes(&mut out, 0, &b, 0, 8);
    assert(out@ =~= zero_extend(b@.subrange(0, 8), 16));
    __m128i { bytes: out }
}

/// Loads 128 bits of integer data from memory.
pub fn _mm_loadu_si128<T: Is128BitsUnaligned>(mem_addr: &T) -> (r: __m128i)
    ensures
        r@ == mem_addr.mem_bytes(),
{
    __m128i { bytes: mem_addr.read_bytes() }
}

/// Loads a 16-bit integer from memory into the lowest bytes; the other bytes
/// are zero.
pub fn _mm_loadu_si16<T: Is16BitsUnaligned>(mem_addr: &T) -> (r: __m128i)
    ensures
        r@ == zero_extend(mem_addr.mem_bytes(), 16),
{
    __m128i { bytes: zero_extend_bytes(&mem_addr.read_bytes()) }
}

/// Loads a 32-bit integer from memory into the lowest bytes; the other bytes
/// are zero.
pub fn _mm_loadu_si32<T: Is32BitsUnaligned>(mem_addr: &T) -> (r: __m128i)
    ensures
        r@ == zero_extend(mem_addr.mem_bytes(), 16),
{
    __m128i { bytes: zero_extend_bytes(&mem_addr.read_bytes()) }
}

/// Loads a 64-bit integer from memory into the lowest bytes; the other bytes
/// are zero.
pub fn _mm_loadu_si64<T: Is64BitsUnaligned>(mem_addr: &T) -> (r: __m128i)
    ensures
        r@ == zero_extend(mem_addr.mem_bytes(), 16),
{
    __m128i { bytes: zero_extend_bytes(&mem_addr.read_bytes()) }
}

/// Stores the low 64-bit lane of `a` to the first eight bytes of memory; the
/// other eight bytes are left as they were.
pub fn _mm_storel_epi64<T: Is128BitsUnaligned>(mem_addr: &mut T, a: __m128i)
    ensures
        final(mem_addr).mem_bytes() == splice(old(mem_addr).mem_bytes(), 0, a@.subrange(0, 8)),
{
    let mut b = mem_addr.read_bytes();
    copy_bytes(&mut b, 0, &a.bytes, 0, 8);
    mem_addr.write_bytes(&b);
}

/// Stores 128 bits of integer data to memory.
pub fn _mm_storeu_si128<T: Is128BitsUnaligned>(mem_addr: &mut T, a: __m128i)
    ensures
        final(mem_addr).mem_bytes() == a@,
{
    mem_addr.write_bytes(&a.bytes);
}

/// Stores the lowest 16 bits of `a` to memory.
pub fn _mm_storeu_si16<T: Is16BitsUnaligned>(mem_addr: &mut T, a: __m128i)
    ensures
        final(mem_addr).mem_bytes() == a@.subrange(0, 2),
{
    let mut b = [0u8; 2];
    copy_bytes(&mut b, 0, &a.bytes, 0, 2);
    assert(b@ =~= a@.subrange(0, 2));
    mem_addr.write_bytes(&b);
}

/// Stores the lowest 32 bits of `a` to memory.
pub fn _mm_storeu_si32<T: Is32BitsUnaligned>(mem_addr: &mut T, a: __m128i)
    ensures
        final(mem_addr).mem_bytes() == a@.subrange(0, 4),
{
    let mut b = [0u8; 4];
    copy_bytes(&mut b, 0, &a.bytes, 0, 4);
    assert(b@ =~= a@.subrange(0, 4));
    mem_addr.write_bytes(&b);
}

/// Stores the lowest 64 bits of `a` to memory.
pub fn _mm_storeu_si64<T: Is64BitsUnaligned>(mem_addr: &mut T, a: __m128i)
    ensures
        final(mem_addr).mem_bytes() == a@.subrange(0, 8),
{
    let mut b = [0u8; 8];
    copy_bytes(&mut b, 0, &a.bytes, 0, 8);
    assert(b@ =~= a@.subrange(0, 8));
    mem_addr.write_bytes(&b);
}

} // verus!
