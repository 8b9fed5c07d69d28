//! AVX-512BW loads and stores of 8-bit and 16-bit lanes.
use vstd::prelude::*;

use crate::ops::{blend, blend_bytes, narrow_bytes, narrow_into, Narrowing};
use crate::traits::{
    Is128BitsUnaligned, Is256BitsUnaligned, Is512BitsUnaligned, Is64BitsUnaligned, Unaligned,
};
use crate::x86::{
    __m128i, __m256i, __m512i, __mmask16, __mmask32, __mmask64, __mmask8, _mm256_setzero_si256,
    _mm512_setzero_si512, _mm_setzero_si128,
};

verus! {

/// Loads 128 bits of 16-bit lanes from memory.
pub fn _mm_loadu_epi16<T: Is128BitsUnaligned>(mem_addr: &T) -> (r: __m128i)
    ensures
        r@ == mem_addr.mem_bytes(),
{
    __m128i { bytes: mem_addr.read_bytes() }
}

/// Loads 16-bit lanes from memory where `k` selects them; the other lanes
/// come from `src`.
pub fn _mm_mask_loadu_epi16<T: Is128BitsUnaligned>(
    src: __m128i,
    k: __mmask8,
    mem_addr: &T,
) -> (r: __m128i)
    ensures
        r@ == blend(src@, mem_addr.mem_bytes(), k as u64, 2),
{
    __m128i { bytes: blend_bytes(&src.bytes, &mem_addr.read_bytes(), k as u64, 2) }
}

/// Loads 16-bit lanes from memory where `k` selects them; the other lanes
/// are zero.
pub fn _mm_maskz_loadu_epi16<T: Is128BitsUnaligned>(k: __mmask8, mem_addr: &T) -> (r: __m128i)
    ensures
        r@ == blend(Seq::new(16, |j: int| 0u8), mem_addr.mem_bytes(), k as u64, 2),
{
    _mm_mask_loadu_epi16(_mm_setzero_si128(), k, mem_addr)
}

/// Loads 256 bits of 16-bit lanes from memory.
pub fn _mm256_loadu_epi16<T: Is256BitsUnaligned>(mem_addr: &T) -> (r: __m256i)
    ensures
        r@ == mem_addr.mem_bytes(),
{
    __m256i { bytes: mem_addr.read_bytes() }
}

/// Loads 16-bit lanes from memory where `k` selects them; the other lanes
/// come from `src`.
pub fn _mm256_mask_loadu_epi16<T: Is256BitsUnaligned>(
    src: __m256i,
    k: __mmask16,
    mem_addr: &T,
) -> (r: __m256i)
    ensures
        r@ == blend(src@, mem_addr.mem_bytes(), k as u64, 2),
{
    __m256i { bytes: blend_bytes(&src.bytes, &mem_addr.read_bytes(), k as u64, 2) }
}

/// Loads 16-bit lanes from memory where `k` selects them; the other lanes
/// are zero.
pub fn _mm256_maskz_loadu_epi16<T: Is256BitsUnaligned>(k: __mmask16, mem_addr: &T) -> (r: __m256i)
    ensures
        r@ == blend(Seq::new(32, |j: int| 0u8), mem_addr.mem_bytes(), k as u64, 2),
{
    _mm256_mask_loadu_epi16(_mm256_setzero_si256(), k, mem_addr)
}

/// Loads 512 bits of 16-bit lanes from memory.
pub fn _mm512_loadu_epi16<T: Is512BitsUnaligned>(mem_addr: &T) -> (r: __m512i)
    ensures
        r@ == mem_addr.mem_bytes(),
{
    __m512i { bytes: mem_addr.read_bytes() }
}

/// Loads 16-bit lanes from memory where `k` selects them; the other lanes
/// come from `src`.
pub fn _mm512_mask_loadu_epi16<T: Is512BitsUnaligned>(
    src: __m512i,
    k: __mmask32,
    mem_addr: &T,
) -> (r: __m512i)
    ensures
        r@ == blend(src@, mem_addr.mem_bytes(), k as u64, 2),
{
    __m512i { bytes: blend_bytes(&src.bytes, &mem_addr.read_bytes(), k as u64, 2) }
}

/// Loads 16-bit lanes from memory where `k` selects them; the other lanes
/// are zero.
pub fn _mm512_maskz_loadu_epi16<T: Is512BitsUnaligned>(k: __mmask32, mem_addr: &T) -> (r: __m512i)
    ensures
        r@ == blend(Seq::new(64, |j: int| 0u8), mem_addr.mem_bytes(), k as u64, 2),
{
    _mm512_mask_loadu_epi16(_mm512_setzero_si512(), k, mem_addr)
}

/// Loads 128 bits of 8-bit lanes from memory.
pub fn _mm_loadu_epi8<T: Is128BitsUnaligned>(mem_addr: &T) -> (r: __m128i)
    ensures
        r@ == mem_addr.mem_bytes(),
{
    __m128i { bytes: mem_addr.read_bytes() }
}

/// Loads 8-bit lanes from memory where `k` selects them; the other lanes
/// come from `src`.
pub fn _mm_mask_loadu_epi8<T: Is128BitsUnaligned>(
    src: __m128i,
    k: __mmask16,
    mem_addr: &T,
) -> (r: __m128i)
    ensures
        r@ == blend(src@, mem_addr.mem_bytes(), k as u64, 1),
{
    __m128i { bytes: blend_bytes(&src.bytes, &mem_addr.read_bytes(), k as u64, 1) }
}

/// Loads 8-bit lanes from memory where `k` selects them; the other lanes
/// are zero.
pub fn _mm_maskz_loadu_epi8<T: Is128BitsUnaligned>(k: __mmask16, mem_addr: &T) -> (r: __m128i)
    ensures
        r@ == blend(Seq::new(16, |j: int| 0u8), mem_addr.mem_bytes(), k as u64, 1),
{
    _mm_mask_loadu_epi8(_mm_setzero_si128(), k, mem_addr)
}

/// Loads 256 bits of 8-bit lanes from memory.
pub fn _mm256_loadu_epi8<T: Is256BitsUnaligned>(mem_addr: &T) -> (r: __m256i)
    ensures
        r@ == mem_addr.mem_bytes(),
{
    __m256i { bytes: mem_addr.read_bytes() }
}

/// Loads 8-bit lanes from memory where `k` selects them; the other lanes
/// come from `src`.
pub fn _mm256_mask_loadu_epi8<T: Is256BitsUnaligned>(
    src: __m256i,
    k: __mmask32,
    mem_addr: &T,
) -> (r: __m256i)
    ensures
        r@ == blend(src@, mem_addr.mem_bytes(), k as u64, 1),
{
    __m256i { bytes: blend_bytes(&src.bytes, &mem_addr.read_bytes(), k as u64, 1) }
}

/// Loads 8-bit lanes from memory where `k` selects them; the other lanes
/// are zero.
pub fn _mm256_maskz_loadu_epi8<T: Is256BitsUnaligned>(k: __mmask32, mem_addr: &T) -> (r: __m256i)
    ensures
        r@ == blend(Seq::new(32, |j: int| 0u8), mem_addr.mem_bytes(), k as u64, 1),
{
    _mm256_mask_loadu_epi8(_mm256_setzero_si256(), k, mem_addr)
}

/// Loads 512 bits of 8-bit lanes from memory.
pub fn _mm512_loadu_epi8<T: Is512BitsUnaligned>(mem_addr: &T) -> (r: __m512i)
    ensures
        r@ == mem_addr.mem_bytes(),
{
    __m512i { bytes: mem_addr.read_bytes() }
}

/// Loads 8-bit lanes from memory where `k` selects them; the other lanes
/// come from `src`.
pub fn _mm512_mask_loadu_epi8<T: Is512BitsUnaligned>(
    src: __m512i,
    k: __mmask64,
    mem_addr: &T,
) -> (r: __m512i)
    ensures
        r@ == blend(src@, mem_addr.mem_bytes(), k as u64, 1),
{
    __m512i { bytes: blend_bytes(&src.bytes, &mem_addr.read_bytes(), k as u64, 1) }
}

/// Loads 8-bit lanes from memory where `k` selects them; the other lanes
/// are zero.
pub fn _mm512_maskz_loadu_epi8<T: Is512BitsUnaligned>(k: __mmask64, mem_addr: &T) -> (r: __m512i)
    ensures
        r@ == blend(Seq::new(64, |j: int| 0u8), mem_addr.mem_bytes(), k as u64, 1),
{
    _mm512_mask_loadu_epi8(_mm512_setzero_si512(), k, mem_addr)
}

/// Stores the 16-bit lanes of `a` that `k` selects, truncated to their low byte,
/// to the bytes of memory with the same index; the other bytes are left as
/// they were.
pub fn _mm_mask_cvtepi16_storeu_epi8<T: Is64BitsUnaligned>(
    base_addr: &mut T,
    k: __mmask8,
    a: __m128i,
)
    ensures
        final(base_addr).mem_bytes() == narrow_into(
            old(base_addr).mem_bytes(),
            a@,
            k as u64,
            Narrowing::Truncate,
        ),
{
    let mut bytes = base_addr.read_bytes();
    narrow_bytes(&mut bytes, &a.bytes, k as u64, Narrowing::Truncate);
    base_addr.write_bytes(&bytes);
}

/// Stores the 16-bit lanes of `a` that `k` selects, truncated to their low byte,
/// to the bytes of memory with the same index; the other bytes are left as
/// they were.
pub fn _mm256_mask_cvtepi16_storeu_epi8<T: Is128BitsUnaligned>(
    base_addr: &mut T,
    k: __mmask16,
    a: __m256i,
)
    ensures
        final(base_addr).mem_bytes() == narrow_into(
            old(base_addr).mem_bytes(),
            a@,
            k as u64,
            Narrowing::Truncate,
        ),
{
    let mut bytes = base_addr.read_bytes();
    narrow_bytes(&mut bytes, &a.bytes, k as u64, Narrowing::Truncate);
    base_addr.write_bytes(&bytes);
}

/// Stores the 16-bit lanes of `a` that `k` selects, truncated to their low byte,
/// to the bytes of memory with the same index; the other bytes are left as
/// they were.
pub fn _mm512_mask_cvtepi16_storeu_epi8<T: Is256BitsUnaligned>(
    base_addr: &mut T,
    k: __mmask32,
    a: __m512i,
)
    ensures
        final(base_addr).mem_bytes() == narrow_into(
            old(base_addr).mem_bytes(),
            a@,
            k as u64,
            Narrowing::Truncate,
        ),
{
    let mut bytes = base_addr.read_bytes();
    narrow_bytes(&mut bytes, &a.bytes, k as u64, Narrowing::Truncate);
    base_addr.write_bytes(&bytes);
}

/// Stores the 16-bit lanes of `a` that `k` selects, read as signed and saturated to `i8`,
/// to the bytes of memory with the same index; the other bytes are left as
/// they were.
pub fn _mm_mask_cvtsepi16_storeu_epi8<T: Is64BitsUnaligned>(
    base_addr: &mut T,
    k: __mmask8,
    a: __m128i,
)
    ensures
        final(base_addr).mem_bytes() == narrow_into(
            old(base_addr).mem_bytes(),
            a@,
            k as u64,
            Narrowing::SignedSaturate,
        ),
{
    let mut bytes = base_addr.read_bytes();
    narrow_bytes(&mut bytes, &a.bytes, k as u64, Narrowing::SignedSaturate);
    base_addr.write_bytes(&bytes);
}

/// Stores the 16-bit lanes of `a` that `k` selects, read as signed and saturated to `i8`,
/// to the bytes of memory with the same index; the other bytes are left as
/// they were.
pub fn _mm256_mask_cvtsepi16_storeu_epi8<T: Is128BitsUnaligned>(
    base_addr: &mut T,
    k: __mmask16,
    a: __m256i,
)
    ensures
        final(base_addr).mem_bytes() == narrow_into(
            old(base_addr).mem_bytes(),
            a@,
            k as u64,
            Narrowing::SignedSaturate,
        ),
{
    let mut bytes = base_addr.read_bytes();
    narrow_bytes(&mut bytes, &a.bytes, k as u64, Narrowing::SignedSaturate);
    base_addr.write_bytes(&bytes);
}

/// Stores the 16-bit lanes of `a` that `k` selects, read as signed and saturated to `i8`,
/// to the bytes of memory with the same index; the other bytes are left as
/// they were.
pub fn _mm512_mask_cvtsepi16_storeu_epi8<T: Is256BitsUnaligned>(
    base_addr: &mut T,
    k: __mmask32,
    a: __m512i,
)
    ensures
        final(base_addr).mem_bytes() == narrow_into(
            old(base_addr).mem_bytes(),
            a@,
            k as u64,
            Narrowing::SignedSaturate,
        ),
{
    let mut bytes = base_addr.read_bytes();
    narrow_bytes(&mut bytes, &a.bytes, k as u64, Narrowing::SignedSaturate);
    base_addr.write_bytes(&bytes);
}

/// Stores the 16-bit lanes of `a` that `k` selects, read as unsigned and saturated to `u8`,
/// to the bytes of memory with the same index; the other bytes are left as
/// they were.
pub fn _mm_mask_cvtusepi16_storeu_epi8<T: Is64BitsUnaligned>(
    base_addr: &mut T,
    k: __mmask8,
    a: __m128i,
)
    ensures
        final(base_addr).mem_bytes() == narrow_into(
            old(base_addr).mem_bytes(),
            a@,
            k as u64,
            Narrowing::UnsignedSaturate,
        ),
{
    let mut bytes = base_addr.read_bytes();
    narrow_bytes(&mut bytes, &a.bytes, k as u64, Narrowing::UnsignedSaturate);
    base_addr.write_bytes(&bytes);
}

/// Stores the 16-bit lanes of `a` that `k` selects, read as unsigned and saturated to `u8`,
/// to the bytes of memory with the same index; the other bytes are left as
/// they were.
pub fn _mm256_mask_cvtusepi16_storeu_epi8<T: Is128BitsUnaligned>(
    base_addr: &mut T,
    k: __mmask16,
    a: __m256i,
)
    ensures
        final(base_addr).mem_bytes() == narrow_into(
            old(base_addr).mem_bytes(),
            a@,
            k as u64,
            Narrowing::UnsignedSaturate,
        ),
{
    let mut bytes = base_addr.read_bytes();
    narrow_bytes(&mut bytes, &a.bytes, k as u64, Narrowing::UnsignedSaturate);
    base_addr.write_bytes(&bytes);
}

/// Stores the 16-bit lanes of `a` that `k` selects, read as unsigned and saturated to `u8`,
/// to the bytes of memory with the same index; the other bytes are left as
/// they were.
pub fn _mm512_mask_cvtusepi16_storeu_epi8<T: Is256BitsUnaligned>(
    base_addr: &mut T,
    k: __mmask32,
    a: __m512i,
)
    ensures
        final(base_addr).mem_bytes() == narrow_into(
            old(base_addr).mem_bytes(),
            a@,
            k as u64,
            Narrowing::UnsignedSaturate,
        ),
{
    let mut bytes = base_addr.read_bytes();
    narrow_bytes(&mut bytes, &a.bytes, k as u64, Narrowing::UnsignedSaturate);
    base_addr.write_bytes(&bytes);
}

/// Stores the 16-bit lanes of `a` that `mask` selects; the other bytes of
/// memory are left as they were.
pub fn _mm_mask_storeu_epi16<T: Is128BitsUnaligned>(mem_addr: &mut T, mask: __mmask8, a: __m128i)
    ensures
        final(mem_addr).mem_bytes() == blend(old(mem_addr).mem_bytes(), a@, mask as u64, 2),
{
    let old_bytes = mem_addr.read_bytes();
    mem_addr.write_bytes(&blend_bytes(&old_bytes, &a.bytes, mask as u64, 2));
}

/// Stores 128 bits of 16-bit lanes to memory.
pub fn _mm_storeu_epi16<T: Is128BitsUnaligned>(mem_addr: &mut T, a: __m128i)
    ensures
        final(mem_addr).mem_bytes() == a@,
{
    mem_addr.write_bytes(&a.bytes);
}

/// Stores the 16-bit lanes of `a` that `mask` selects; the other bytes of
/// memory are left as they were.
pub fn _mm256_mask_storeu_epi16<T: Is256BitsUnaligned>(
    mem_addr: &mut T,
    mask: __mmask16,
    a: __m256i,
)
    ensures
        final(mem_addr).mem_bytes() == blend(old(mem_addr).mem_bytes(), a@, mask as u64, 2),
{
    let old_bytes = mem_addr.read_bytes();
    mem_addr.write_bytes(&blend_bytes(&old_bytes, &a.bytes, mask as u64, 2));
}

/// Stores 256 bits of 16-bit lanes to memory.
pub fn _mm256_storeu_epi16<T: Is256BitsUnaligned>(mem_addr: &mut T, a: __m256i)
    ensures
        final(mem_addr).mem_bytes() == a@,
{
    mem_addr.write_bytes(&a.bytes);
}

/// Stores the 16-bit lanes of `a` that `mask` selects; the other bytes of
/// memory are left as they were.
pub fn _mm512_mask_storeu_epi16<T: Is512BitsUnaligned>(
    mem_addr: &mut T,
    mask: __mmask32,
    a: __m512i,
)
    ensures
        final(mem_addr).mem_bytes() == blend(old(mem_addr).mem_bytes(), a@, mask as u64, 2),
{
    let old_bytes = mem_addr.read_bytes();
    mem_addr.write_bytes(&blend_bytes(&old_bytes, &a.bytes, mask as u64, 2));
}

/// Stores 512 bits of 16-bit lanes to memory.
pub fn _mm512_storeu_epi16<T: Is512BitsUnaligned>(mem_addr: &mut T, a: __m512i)
    ensures
        final(mem_addr).mem_bytes() == a@,
{
    mem_addr.write_bytes(&a.bytes);
}

/// Stores the 8-bit lanes of `a` that `mask` selects; the other bytes of
/// memory are left as they were.
pub fn _mm_mask_storeu_epi8<T: Is128BitsUnaligned>(mem_addr: &mut T, mask: __mmask16, a: __m128i)
    ensures
        final(mem_addr).mem_bytes() == blend(old(mem_addr).mem_bytes(), a@, mask as u64, 1),
{
    let old_bytes = mem_addr.read_bytes();
    mem_addr.write_bytes(&blend_bytes(&old_bytes, &a.bytes, mask as u64, 1));
}

/// Stores 128 bits of 8-bit lanes to memory.
pub fn _mm_storeu_epi8<T: Is128BitsUnaligned>(mem_addr: &mut T, a: __m128i)
    ensures
        final(mem_addr).mem_bytes() == a@,
{
    mem_addr.write_bytes(&a.bytes);
}

/// Stores the 8-bit lanes of `a` that `mask` selects; the other bytes of
/// memory are left as they were.
pub fn _mm256_mask_storeu_epi8<T: Is256BitsUnaligned>(mem_addr: &mut T, mask: __mmask32, a: __m256i)
    ensures
        final(mem_addr).mem_bytes() == blend(old(mem_addr).mem_bytes(), a@, mask as u64, 1),
{
    let old_bytes = mem_addr.read_bytes();
    mem_addr.write_bytes(&blend_bytes(&old_bytes, &a.bytes, mask as u64, 1));
}

/// Stores 256 bits of 8-bit lanes to memory.
pub fn _mm256_storeu_epi8<T: Is256BitsUnaligned>(mem_addr: &mut T, a: __m256i)
    ensures
        final(mem_addr).mem_bytes() == a@,
{
    mem_addr.write_bytes(&a.bytes);
}

/// Stores the 8-bit lanes of `a` that `mask` selects; the other bytes of
/// memory are left as they were.
pub fn _mm512_mask_storeu_epi8<T: Is512BitsUnaligned>(mem_addr: &mut T, mask: __mmask64, a: __m512i)
    ensures
        final(mem_addr).mem_bytes() == blend(old(mem_addr).mem_bytes(), a@, mask as u64, 1),
{
    let old_bytes = mem_addr.read_bytes();
    mem_addr.write_bytes(&blend_bytes(&old_bytes, &a.bytes, mask as u64, 1));
}

/// Stores 512 bits of 8-bit lanes to memory.
pub fn _mm512_storeu_epi8<T: Is512BitsUnaligned>(mem_addr: &mut T, a: __m512i)
    ensures
        final(mem_addr).mem_bytes() == a@,
{
    mem_addr.write_bytes(&a.bytes);
}

} // verus!
