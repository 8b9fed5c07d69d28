//! AVX loads and stores of integer data.
use vstd::prelude::*;

use crate::ops::copy_bytes;
use crate::traits::{Is128BitsUnaligned, Is256BitsUnaligned, Unaligned};
use crate::x86::__m256i;

verus! {

/// Loads 256 bits of integer data from memory.
pub fn _mm256_loadu_si256<T: Is256BitsUnaligned>(mem_addr: &T) -> (r: __m256i)
    ensures
        r@ == mem_addr.mem_bytes(),
{
    __m256i { bytes: mem_addr.read_bytes() }
}

/// Loads two 128-bit halves from two places in memory: the low half from
/// `loaddr`, the high half from `hiaddr`.
pub fn _mm256_loadu2_m128i<T: Is128BitsUnaligned>(hiaddr: &T, loaddr: &T) -> (r: __m256i)
    ensures
        r@ == loaddr.mem_bytes() + hiaddr.mem_bytes(),
{
    let lo = loaddr.read_bytes();
    let hi = hiaddr.read_bytes();
    let mut out = [0u8; 32];
    copy_bytes(&mut out, 0, &lo, 0, 16);
    copy_bytes(&mut out, 16, &hi, 0, 16);
    assert(out@ =~= lo@ + hi@);
    __m256i { bytes: out }
}

/// Stores 256 bits of integer data to memory.
pub fn _mm256_storeu_si256<T: Is256BitsUnaligned>(mem_addr: &mut T, a: __m256i)
    ensures
        final(mem_addr).mem_bytes() == a@,
{
    mem_addr.write_bytes(&a.bytes);
}

/// Stores the two 128-bit halves of `a` to two places in memory: the low half
/// to `loaddr`, the high half to `hiaddr`.
pub fn _mm256_storeu2_m128i<T: Is128BitsUnaligned>(hiaddr: &mut T, loaddr: &mut T, a: __m256i)
    ensures
        final(loaddr).mem_bytes() == a@.subrange(0, 16),
        final(hiaddr).mem_bytes() == a@.subrange(16, 32),
{
    let mut lo = [0u8; 16];
    let mut hi = [0u8; 16];
    copy_bytes(&mut lo, 0, &a.bytes, 0, 16);
    copy_bytes(&mut hi, 0, &a.bytes, 16, 16);
    assert(lo@ =~= a@.subrange(0, 16));
    assert(hi@ =~= a@.subrange(16, 32));
    loaddr.write_bytes(&lo);
    hiaddr.write_bytes(&hi);
}

} // verus!
