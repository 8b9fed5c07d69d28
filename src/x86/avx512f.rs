//! AVX-512F loads and stores of 32-bit and 64-bit lanes.
use vstd::prelude::*;

use crate::ops::{blend, blend_bytes, compress_bytes, compressed, expand, expand_bytes};
use crate::traits::{Is128BitsUnaligned, Is256BitsUnaligned, Is512BitsUnaligned, Unaligned};
use crate::x86::{
    __m128i, __m256i, __m512i, __mmask16, __mmask8, _mm256_setzero_si256, _mm512_setzero_si512,
    _mm_setzero_si128,
};

verus! {

/// Loads consecutive 32-bit lanes from the start of memory into the lanes
/// that `k` selects, in order; the other lanes come from `src`.
pub fn _mm_mask_expandloadu_epi32<T: Is128BitsUnaligned>(
    src: __m128i,
    k: __mmask8,
    mem_addr: &T,
) -> (r: __m128i)
    ensures
        r@ == expand(src@, mem_addr.mem_bytes(), k as u64, 4),
{
    __m128i { bytes: expand_bytes(&src.bytes, &mem_addr.read_bytes(), k as u64, 4) }
}

/// Loads consecutive 32-bit lanes from the start of memory into the lanes
/// that `k` selects, in order; the other lanes are zero.
pub fn _mm_maskz_expandloadu_epi32<T: Is128BitsUnaligned>(k: __mmask8, mem_addr: &T) -> (r: __m128i)
    ensures
        r@ == expand(Seq::new(16, |j: int| 0u8), mem_addr.mem_bytes(), k as u64, 4),
{
    _mm_mask_expandloadu_epi32(_mm_setzero_si128(), k, mem_addr)
}

/// Loads consecutive 32-bit lanes from the start of memory into the lanes
/// that `k` selects, in order; the other lanes come from `src`.
pub fn _mm256_mask_expandloadu_epi32<T: Is256BitsUnaligned>(
    src: __m256i,
    k: __mmask8,
    mem_addr: &T,
) -> (r: __m256i)
    ensures
        r@ == expand(src@, mem_addr.mem_bytes(), k as u64, 4),
{
    __m256i { bytes: expand_bytes(&src.bytes, &mem_addr.read_bytes(), k as u64, 4) }
}

/// Loads consecutive 32-bit lanes from the start of memory into the lanes
/// that `k` selects, in order; the other lanes are zero.
pub fn _mm256_maskz_expandloadu_epi32<T: Is256BitsUnaligned>(
    k: __mmask8,
    mem_addr: &T,
) -> (r: __m256i)
    ensures
        r@ == expand(Seq::new(32, |j: int| 0u8), mem_addr.mem_bytes(), k as u64, 4),
{
    _mm256_mask_expandloadu_epi32(_mm256_setzero_si256(), k, mem_addr)
}

/// Loads consecutive 32-bit lanes from the start of memory into the lanes
/// that `k` selects, in order; the other lanes come from `src`.
pub fn _mm512_mask_expandloadu_epi32<T: Is512BitsUnaligned>(
    src: __m512i,
    k: __mmask16,
    mem_addr: &T,
) -> (r: __m512i)
    ensures
        r@ == expand(src@, mem_addr.mem_bytes(), k as u64, 4),
{
    __m512i { bytes: expand_bytes(&src.bytes, &mem_addr.read_bytes(), k as u64, 4) }
}

/// Loads consecutive 32-bit lanes from the start of memory into the lanes
/// that `k` selects, in order; the other lanes are zero.
pub fn _mm512_maskz_expandloadu_epi32<T: Is512BitsUnaligned>(
    k: __mmask16,
    mem_addr: &T,
) -> (r: __m512i)
    ensures
        r@ == expand(Seq::new(64, |j: int| 0u8), mem_addr.mem_bytes(), k as u64, 4),
{
    _mm512_mask_expandloadu_epi32(_mm512_setzero_si512(), k, mem_addr)
}

/// Loads consecutive 64-bit lanes from the start of memory into the lanes
/// that `k` selects, in order; the other lanes come from `src`.
pub fn _mm_mask_expandloadu_epi64<T: Is128BitsUnaligned>(
    src: __m128i,
    k: __mmask8,
    mem_addr: &T,
) -> (r: __m128i)
    ensures
        r@ == expand(src@, mem_addr.mem_bytes(), k as u64, 8),
{
    __m128i { bytes: expand_bytes(&src.bytes, &mem_addr.read_bytes(), k as u64, 8) }
}

/// Loads consecutive 64-bit lanes from the start of memory into the lanes
/// that `k` selects, in order; the other lanes are zero.
pub fn _mm_maskz_expandloadu_epi64<T: Is128BitsUnaligned>(k: __mmask8, mem_addr: &T) -> (r: __m128i)
    ensures
        r@ == expand(Seq::new(16, |j: int| 0u8), mem_addr.mem_bytes(), k as u64, 8),
{
    _mm_mask_expandloadu_epi64(_mm_setzero_si128(), k, mem_addr)
}

/// Loads consecutive 64-bit lanes from the start of memory into the lanes
/// that `k` selects, in order; the other lanes come from `src`.
pub fn _mm256_mask_expandloadu_epi64<T: Is256BitsUnaligned>(
    src: __m256i,
    k: __mmask8,
    mem_addr: &T,
) -> (r: __m256i)
    ensures
        r@ == expand(src@, mem_addr.mem_bytes(), k as u64, 8),
{
    __m256i { bytes: expand_bytes(&src.bytes, &mem_addr.read_bytes(), k as u64, 8) }
}

/// Loads consecutive 64-bit lanes from the start of memory into the lanes
/// that `k` selects, in order; the other lanes are zero.
pub fn _mm256_maskz_expandloadu_epi64<T: Is256BitsUnaligned>(
    k: __mmask8,
    mem_addr: &T,
) -> (r: __m256i)
    ensures
        r@ == expand(Seq::new(32, |j: int| 0u8), mem_addr.mem_bytes(), k as u64, 8),
{
    _mm256_mask_expandloadu_epi64(_mm256_setzero_si256(), k, mem_addr)
}

/// Loads consecutive 64-bit lanes from the start of memory into the lanes
/// that `k` selects, in order; the other lanes come from `src`.
pub fn _mm512_mask_expandloadu_epi64<T: Is512BitsUnaligned>(
    src: __m512i,
    k: __mmask8,
    mem_addr: &T,
) -> (r: __m512i)
    ensures
        r@ == expand(src@, mem_addr.mem_bytes(), k as u64, 8),
{
    __m512i { bytes: expand_bytes(&src.bytes, &mem_addr.read_bytes(), k as u64, 8) }
}

/// Loads consecutive 64-bit lanes from the start of memory into the lanes
/// that `k` selects, in order; the other lanes are zero.
pub fn _mm512_maskz_expandloadu_epi64<T: Is512BitsUnaligned>(
    k: __mmask8,
    mem_addr: &T,
) -> (r: __m512i)
    ensures
        r@ == expand(Seq::new(64, |j: int| 0u8), mem_addr.mem_bytes(), k as u64, 8),
{
    _mm512_mask_expandloadu_epi64(_mm512_setzero_si512(), k, mem_addr)
}

/// Loads 128 bits of 32-bit lanes from memory.
pub fn _mm_loadu_epi32<T: Is128BitsUnaligned>(mem_addr: &T) -> (r: __m128i)
    ensures
        r@ == mem_addr.mem_bytes(),
{
    __m128i { bytes: mem_addr.read_bytes() }
}

/// Loads 32-bit lanes from memory where `k` selects them; the other lanes
/// come from `src`.
pub fn _mm_mask_loadu_epi32<T: Is128BitsUnaligned>(
    src: __m128i,
    k: __mmask8,
    mem_addr: &T,
) -> (r: __m128i)
    ensures
        r@ == blend(src@, mem_addr.mem_bytes(), k as u64, 4),
{
    __m128i { bytes: blend_bytes(&src.bytes, &mem_addr.read_bytes(), k as u64, 4) }
}

/// Loads 32-bit lanes from memory where `k` selects them; the other lanes
/// are zero.
pub fn _mm_maskz_loadu_epi32<T: Is128BitsUnaligned>(k: __mmask8, mem_addr: &T) -> (r: __m128i)
    ensures
        r@ == blend(Seq::new(16, |j: int| 0u8), mem_addr.mem_bytes(), k as u64, 4),
{
    _mm_mask_loadu_epi32(_mm_setzero_si128(), k, mem_addr)
}

/// Loads 256 bits of 32-bit lanes from memory.
pub fn _mm256_loadu_epi32<T: Is256BitsUnaligned>(mem_addr: &T) -> (r: __m256i)
    ensures
        r@ == mem_addr.mem_bytes(),
{
    __m256i { bytes: mem_addr.read_bytes() }
}

/// Loads 32-bit lanes from memory where `k` selects them; the other lanes
/// come from `src`.
pub fn _mm256_mask_loadu_epi32<T: Is256BitsUnaligned>(
    src: __m256i,
    k: __mmask8,
    mem_addr: &T,
) -> (r: __m256i)
    ensures
        r@ == blend(src@, mem_addr.mem_bytes(), k as u64, 4),
{
    __m256i { bytes: blend_bytes(&src.bytes, &mem_addr.read_bytes(), k as u64, 4) }
}

/// Loads 32-bit lanes from memory where `k` selects them; the other lanes
/// are zero.
pub fn _mm256_maskz_loadu_epi32<T: Is256BitsUnaligned>(k: __mmask8, mem_addr: &T) -> (r: __m256i)
    ensures
        r@ == blend(Seq::new(32, |j: int| 0u8), mem_addr.mem_bytes(), k as u64, 4),
{
    _mm256_mask_loadu_epi32(_mm256_setzero_si256(), k, mem_addr)
}

/// Loads 512 bits of 32-bit lanes from memory.
pub fn _mm512_loadu_epi32<T: Is512BitsUnaligned>(mem_addr: &T) -> (r: __m512i)
    ensures
        r@ == mem_addr.mem_bytes(),
{
    __m512i { bytes: mem_addr.read_bytes() }
}

/// Loads 32-bit lanes from memory where `k` selects them; the other lanes
/// come from `src`.
pub fn _mm512_mask_loadu_epi32<T: Is512BitsUnaligned>(
    src: __m512i,
    k: __mmask16,
    mem_addr: &T,
) -> (r: __m512i)
    ensures
        r@ == blend(src@, mem_addr.mem_bytes(), k as u64, 4),
{
    __m512i { bytes: blend_bytes(&src.bytes, &mem_addr.read_bytes(), k as u64, 4) }
}

/// Loads 32-bit lanes from memory where `k` selects them; the other lanes
/// are zero.
pub fn _mm512_maskz_loadu_epi32<T: Is512BitsUnaligned>(k: __mmask16, mem_addr: &T) -> (r: __m512i)
    ensures
        r@ == blend(Seq::new(64, |j: int| 0u8), mem_addr.mem_bytes(), k as u64, 4),
{
    _mm512_mask_loadu_epi32(_mm512_setzero_si512(), k, mem_addr)
}

/// Loads 128 bits of 64-bit lanes from memory.
pub fn _mm_loadu_epi64<T: Is128BitsUnaligned>(mem_addr: &T) -> (r: __m128i)
    ensures
        r@ == mem_addr.mem_bytes(),
{
    __m128i { bytes: mem_addr.read_bytes() }
}

/// Loads 64-bit lanes from memory where `k` selects them; the other lanes
/// come from `src`.
pub fn _mm_mask_loadu_epi64<T: Is128BitsUnaligned>(
    src: __m128i,
    k: __mmask8,
    mem_addr: &T,
) -> (r: __m128i)
    ensures
        r@ == blend(src@, mem_addr.mem_bytes(), k as u64, 8),
{
    __m128i { bytes: blend_bytes(&src.bytes, &mem_addr.read_bytes(), k as u64, 8) }
}

/// Loads 64-bit lanes from memory where `k` selects them; the other lanes
/// are zero.
pub fn _mm_maskz_loadu_epi64<T: Is128BitsUnaligned>(k: __mmask8, mem_addr: &T) -> (r: __m128i)
    ensures
        r@ == blend(Seq::new(16, |j: int| 0u8), mem_addr.mem_bytes(), k as u64, 8),
{
    _mm_mask_loadu_epi64(_mm_setzero_si128(), k, mem_addr)
}

/// Loads 256 bits of 64-bit lanes from memory.
pub fn _mm256_loadu_epi64<T: Is256BitsUnaligned>(mem_addr: &T) -> (r: __m256i)
    ensures
        r@ == mem_addr.mem_bytes(),
{
    __m256i { bytes: mem_addr.read_bytes() }
}

/// Loads 64-bit lanes from memory where `k` selects them; the other lanes
/// come from `src`.
pub fn _mm256_mask_loadu_epi64<T: Is256BitsUnaligned>(
    src: __m256i,
    k: __mmask8,
    mem_addr: &T,
) -> (r: __m256i)
    ensures
        r@ == blend(src@, mem_addr.mem_bytes(), k as u64, 8),
{
    __m256i { bytes: blend_bytes(&src.bytes, &mem_addr.read_bytes(), k as u64, 8) }
}

/// Loads 64-bit lanes from memory where `k` selects them; the other lanes
/// are zero.
pub fn _mm256_maskz_loadu_epi64<T: Is256BitsUnaligned>(k: __mmask8, mem_addr: &T) -> (r: __m256i)
    ensures
        r@ == blend(Seq::new(32, |j: int| 0u8), mem_addr.mem_bytes(), k as u64, 8),
{
    _mm256_mask_loadu_epi64(_mm256_setzero_si256(), k, mem_addr)
}

/// Loads 512 bits of 64-bit lanes from memory.
pub fn _mm512_loadu_epi64<T: Is512BitsUnaligned>(mem_addr: &T) -> (r: __m512i)
    ensures
        r@ == mem_addr.mem_bytes(),
{
    __m512i { bytes: mem_addr.read_bytes() }
}

/// Loads 64-bit lanes from memory where `k` selects them; the other lanes
/// come from `src`.
pub fn _mm512_mask_loadu_epi64<T: Is512BitsUnaligned>(
    src: __m512i,
    k: __mmask8,
    mem_addr: &T,
) -> (r: __m512i)
    ensures
        r@ == blend(src@, mem_addr.mem_bytes(), k as u64, 8),
{
    __m512i { bytes: blend_bytes(&src.bytes, &mem_addr.read_bytes(), k as u64, 8) }
}

/// Loads 64-bit lanes from memory where `k` selects them; the other lanes
/// are zero.
pub fn _mm512_maskz_loadu_epi64<T: Is512BitsUnaligned>(k: __mmask8, mem_addr: &T) -> (r: __m512i)
    ensures
        r@ == blend(Seq::new(64, |j: int| 0u8), mem_addr.mem_bytes(), k as u64, 8),
{
    _mm512_mask_loadu_epi64(_mm512_setzero_si512(), k, mem_addr)
}

/// Loads 512 bits of integer data from memory.
pub fn _mm512_loadu_si512<T: Is512BitsUnaligned>(mem_addr: &T) -> (r: __m512i)
    ensures
        r@ == mem_addr.mem_bytes(),
{
    __m512i { bytes: mem_addr.read_bytes() }
}

/// Stores the 32-bit lanes of `a` that `k` selects, in order, to consecutive
/// lanes from the start of memory; the bytes after them are left as they were.
pub fn _mm_mask_compressstoreu_epi32<T: Is128BitsUnaligned>(
    base_addr: &mut T,
    k: __mmask8,
    a: __m128i,
)
    ensures
        compressed(final(base_addr).mem_bytes(), old(base_addr).mem_bytes(), a@, k as u64, 4),
{
    let mut bytes = base_addr.read_bytes();
    compress_bytes(&mut bytes, &a.bytes, k as u64, 4);
    base_addr.write_bytes(&bytes);
}

/// Stores the 32-bit lanes of `a` that `k` selects, in order, to consecutive
/// lanes from the start of memory; the bytes after them are left as they were.
pub fn _mm256_mask_compressstoreu_epi32<T: Is256BitsUnaligned>(
    base_addr: &mut T,
    k: __mmask8,
    a: __m256i,
)
    ensures
        compressed(final(base_addr).mem_bytes(), old(base_addr).mem_bytes(), a@, k as u64, 4),
{
    let mut bytes = base_addr.read_bytes();
    compress_bytes(&mut bytes, &a.bytes, k as u64, 4);
    base_addr.write_bytes(&bytes);
}

/// Stores the 32-bit lanes of `a` that `k` selects, in order, to consecutive
/// lanes from the start of memory; the bytes after them are left as they were.
pub fn _mm512_mask_compressstoreu_epi32<T: Is512BitsUnaligned>(
    base_addr: &mut T,
    k: __mmask16,
    a: __m512i,
)
    ensures
        compressed(final(base_addr).mem_bytes(), old(base_addr).mem_bytes(), a@, k as u64, 4),
{
    let mut bytes = base_addr.read_bytes();
    compress_bytes(&mut bytes, &a.bytes, k as u64, 4);
    base_addr.write_bytes(&bytes);
}

/// Stores the 64-bit lanes of `a` that `k` selects, in order, to consecutive
/// lanes from the start of memory; the bytes after them are left as they were.
pub fn _mm_mask_compressstoreu_epi64<T: Is128BitsUnaligned>(
    base_addr: &mut T,
    k: __mmask8,
    a: __m128i,
)
    ensures
        compressed(final(base_addr).mem_bytes(), old(base_addr).mem_bytes(), a@, k as u64, 8),
{
    let mut bytes = base_addr.read_bytes();
    compress_bytes(&mut bytes, &a.bytes, k as u64, 8);
    base_addr.write_bytes(&bytes);
}

/// Stores the 64-bit lanes of `a` that `k` selects, in order, to consecutive
/// lanes from the start of memory; the bytes after them are left as they were.
pub fn _mm256_mask_compressstoreu_epi64<T: Is256BitsUnaligned>(
    base_addr: &mut T,
    k: __mmask8,
    a: __m256i,
)
    ensures
        compressed(final(base_addr).mem_bytes(), old(base_addr).mem_bytes(), a@, k as u64, 8),
{
    let mut bytes = base_addr.read_bytes();
    compress_bytes(&mut bytes, &a.bytes, k as u64, 8);
    base_addr.write_bytes(&bytes);
}

/// Stores the 64-bit lanes of `a` that `k` selects, in order, to consecutive
/// lanes from the start of memory; the bytes after them are left as they were.
pub fn _mm512_mask_compressstoreu_epi64<T: Is512BitsUnaligned>(
    base_addr: &mut T,
    k: __mmask8,
    a: __m512i,
)
    ensures
        compressed(final(base_addr).mem_bytes(), old(base_addr).mem_bytes(), a@, k as u64, 8),
{
    let mut bytes = base_addr.read_bytes();
    compress_bytes(&mut bytes, &a.bytes, k as u64, 8);
    base_addr.write_bytes(&bytes);
}

/// Stores the 32-bit lanes of `a` that `mask` selects; the other bytes of
/// memory are left as they were.
pub fn _mm_mask_storeu_epi32<T: Is128BitsUnaligned>(mem_addr: &mut T, mask: __mmask8, a: __m128i)
    ensures
        final(mem_addr).mem_bytes() == blend(old(mem_addr).mem_bytes(), a@, mask as u64, 4),
{
    let old_bytes = mem_addr.read_bytes();
    mem_addr.write_bytes(&blend_bytes(&old_bytes, &a.bytes, mask as u64, 4));
}

/// Stores 128 bits of 32-bit lanes to memory.
pub fn _mm_storeu_epi32<T: Is128BitsUnaligned>(mem_addr: &mut T, a: __m128i)
    ensures
        final(mem_addr).mem_bytes() == a@,
{
    mem_addr.write_bytes(&a.bytes);
}

/// Stores the 32-bit lanes of `a` that `mask` selects; the other bytes of
/// memory are left as they were.
pub fn _mm256_mask_storeu_epi32<T: Is256BitsUnaligned>(mem_addr: &mut T, mask: __mmask8, a: __m256i)
    ensures
        final(mem_addr).mem_bytes() == blend(old(mem_addr).mem_bytes(), a@, mask as u64, 4),
{
    let old_bytes = mem_addr.read_bytes();
    mem_addr.write_bytes(&blend_bytes(&old_bytes, &a.bytes, mask as u64, 4));
}

/// Stores 256 bits of 32-bit lanes to memory.
pub fn _mm256_storeu_epi32<T: Is256BitsUnaligned>(mem_addr: &mut T, a: __m256i)
    ensures
        final(mem_addr).mem_bytes() == a@,
{
    mem_addr.write_bytes(&a.bytes);
}

/// Stores the 32-bit lanes of `a` that `mask` selects; the other bytes of
/// memory are left as they were.
pub fn _mm512_mask_storeu_epi32<T: Is512BitsUnaligned>(
    mem_addr: &mut T,
    mask: __mmask16,
    a: __m512i,
)
    ensures
        final(mem_addr).mem_bytes() == blend(old(mem_addr).mem_bytes(), a@, mask as u64, 4),
{
    let old_bytes = mem_addr.read_bytes();
    mem_addr.write_bytes(&blend_bytes(&old_bytes, &a.bytes, mask as u64, 4));
}

/// Stores 512 bits of 32-bit lanes to memory.
pub fn _mm512_storeu_epi32<T: Is512BitsUnaligned>(mem_addr: &mut T, a: __m512i)
    ensures
        final(mem_addr).mem_bytes() == a@,
{
    mem_addr.write_bytes(&a.bytes);
}

/// Stores the 64-bit lanes of `a` that `mask` selects; the other bytes of
/// memory are left as they were.
pub fn _mm_mask_storeu_epi64<T: Is128BitsUnaligned>(mem_addr: &mut T, mask: __mmask8, a: __m128i)
    ensures
        final(mem_addr).mem_bytes() == blend(old(mem_addr).mem_bytes(), a@, mask as u64, 8),
{
    let old_bytes = mem_addr.read_bytes();
    mem_addr.write_bytes(&blend_bytes(&old_bytes, &a.bytes, mask as u64, 8));
}

/// Stores 128 bits of 64-bit lanes to memory.
pub fn _mm_storeu_epi64<T: Is128BitsUnaligned>(mem_addr: &mut T, a: __m128i)
    ensures
        final(mem_addr).mem_bytes() == a@,
{
    mem_addr.write_bytes(&a.bytes);
}

/// Stores the 64-bit lanes of `a` that `mask` selects; the other bytes of
/// memory are left as they were.
pub fn _mm256_mask_storeu_epi64<T: Is256BitsUnaligned>(mem_addr: &mut T, mask: __mmask8, a: __m256i)
    ensures
        final(mem_addr).mem_bytes() == blend(old(mem_addr).mem_bytes(), a@, mask as u64, 8),
{
    let old_bytes = mem_addr.read_bytes();
    mem_addr.write_bytes(&blend_bytes(&old_bytes, &a.bytes, mask as u64, 8));
}

/// Stores 256 bits of 64-bit lanes to memory.
pub fn _mm256_storeu_epi64<T: Is256BitsUnaligned>(mem_addr: &mut T, a: __m256i)
    ensures
        final(mem_addr).mem_bytes() == a@,
{
    mem_addr.write_bytes(&a.bytes);
}

/// Stores the 64-bit lanes of `a` that `mask` selects; the other bytes of
/// memory are left as they were.
pub fn _mm512_mask_storeu_epi64<T: Is512BitsUnaligned>(mem_addr: &mut T, mask: __mmask8, a: __m512i)
    ensures
        final(mem_addr).mem_bytes() == blend(old(mem_addr).mem_bytes(), a@, mask as u64, 8),
{
    let old_bytes = mem_addr.read_bytes();
    mem_addr.write_bytes(&blend_bytes(&old_bytes, &a.bytes, mask as u64, 8));
}

/// Stores 512 bits of 64-bit lanes to memory.
pub fn _mm512_storeu_epi64<T: Is512BitsUnaligned>(mem_addr: &mut T, a: __m512i)
    ensures
        final(mem_addr).mem_bytes() == a@,
{
    mem_addr.write_bytes(&a.bytes);
}

/// Stores 512 bits of integer data to memory.
pub fn _mm512_storeu_si512<T: Is512BitsUnaligned>(mem_addr: &mut T, a: __m512i)
    ensures
        final(mem_addr).mem_bytes() == a@,
{
    mem_addr.write_bytes(&a.bytes);
}

} // verus!
