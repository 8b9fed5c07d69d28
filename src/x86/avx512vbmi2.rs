//! AVX-512 VBMI2 expand-loads and compress-stores of 8-bit and 16-bit lanes.
use vstd::prelude::*;

use crate::ops::{compress_bytes, compressed, expand, expand_bytes};
use crate::traits::{Is128BitsUnaligned, Is256BitsUnaligned, Is512BitsUnaligned, Unaligned};
use crate::x86::{
    __m128i, __m256i, __m512i, __mmask16, __mmask32, __mmask64, __mmask8, _mm256_setzero_si256,
    _mm512_setzero_si512, _mm_setzero_si128,
};

verus! {

/// Loads consecutive 16-bit lanes from the start of memory into the lanes
/// that `k` selects, in order; the other lanes come from `src`.
pub fn _mm_mask_expandloadu_epi16<T: Is128BitsUnaligned>(
    src: __m128i,
    k: __mmask8,
    mem_addr: &T,
) -> (r: __m128i)
    ensures
        r@ == expand(src@, mem_addr.mem_bytes(), k as u64, 2),
{
    __m128i { bytes: expand_bytes(&src.bytes, &mem_addr.read_bytes(), k as u64, 2) }
}

/// Loads consecutive 16-bit lanes from the start of memory into the lanes
/// that `k` selects, in order; the other lanes are zero.
pub fn _mm_maskz_expandloadu_epi16<T: Is128BitsUnaligned>(k: __mmask8, mem_addr: &T) -> (r: __m128i)
    ensures
        r@ == expand(Seq::new(16, |j: int| 0u8), mem_addr.mem_bytes(), k as u64, 2),
{
    _mm_mask_expandloadu_epi16(_mm_setzero_si128(), k, mem_addr)
}

/// Loads consecutive 16-bit lanes from the start of memory into the lanes
/// that `k` selects, in order; the other lanes come from `src`.
pub fn _mm256_mask_expandloadu_epi16<T: Is256BitsUnaligned>(
    src: __m256i,
    k: __mmask16,
    mem_addr: &T,
) -> (r: __m256i)
    ensures
        r@ == expand(src@, mem_addr.mem_bytes(), k as u64, 2),
{
    __m256i { bytes: expand_bytes(&src.bytes, &mem_addr.read_bytes(), k as u64, 2) }
}

/// Loads consecutive 16-bit lanes from the start of memory into the lanes
/// that `k` selects, in order; the other lanes are zero.
pub fn _mm256_maskz_expandloadu_epi16<T: Is256BitsUnaligned>(
    k: __mmask16,
    mem_addr: &T,
) -> (r: __m256i)
    ensures
        r@ == expand(Seq::new(32, |j: int| 0u8), mem_addr.mem_bytes(), k as u64, 2),
{
    _mm256_mask_expandloadu_epi16(_mm256_setzero_si256(), k, mem_addr)
}

/// Loads consecutive 16-bit lanes from the start of memory into the lanes
/// that `k` selects, in order; the other lanes come from `src`.
pub fn _mm512_mask_expandloadu_epi16<T: Is512BitsUnaligned>(
    src: __m512i,
    k: __mmask32,
    mem_addr: &T,
) -> (r: __m512i)
    ensures
        r@ == expand(src@, mem_addr.mem_bytes(), k as u64, 2),
{
    __m512i { bytes: expand_bytes(&src.bytes, &mem_addr.read_bytes(), k as u64, 2) }
}

/// Loads consecutive 16-bit lanes from the start of memory into the lanes
/// that `k` selects, in order; the other lanes are zero.
pub fn _mm512_maskz_expandloadu_epi16<T: Is512BitsUnaligned>(
    k: __mmask32,
    mem_addr: &T,
) -> (r: __m512i)
    ensures
        r@ == expand(Seq::new(64, |j: int| 0u8), mem_addr.mem_bytes(), k as u64, 2),
{
    _mm512_mask_expandloadu_epi16(_mm512_setzero_si512(), k, mem_addr)
}

/// Loads consecutive 8-bit lanes from the start of memory into the lanes
/// that `k` selects, in order; the other lanes come from `src`.
pub fn _mm_mask_expandloadu_epi8<T: Is128BitsUnaligned>(
    src: __m128i,
    k: __mmask16,
    mem_addr: &T,
) -> (r: __m128i)
    ensures
        r@ == expand(src@, mem_addr.mem_bytes(), k as u64, 1),
{
    __m128i { bytes: expand_bytes(&src.bytes, &mem_addr.read_bytes(), k as u64, 1) }
}

/// Loads consecutive 8-bit lanes from the start of memory into the lanes
/// that `k` selects, in order; the other lanes are zero.
pub fn _mm_maskz_expandloadu_epi8<T: Is128BitsUnaligned>(k: __mmask16, mem_addr: &T) -> (r: __m128i)
    ensures
        r@ == expand(Seq::new(16, |j: int| 0u8), mem_addr.mem_bytes(), k as u64, 1),
{
    _mm_mask_expandloadu_epi8(_mm_setzero_si128(), k, mem_addr)
}

/// Loads consecutive 8-bit lanes from the start of memory into the lanes
/// that `k` selects, in order; the other lanes come from `src`.
pub fn _mm256_mask_expandloadu_epi8<T: Is256BitsUnaligned>(
    src: __m256i,
    k: __mmask32,
    mem_addr: &T,
) -> (r: __m256i)
    ensures
        r@ == expand(src@, mem_addr.mem_bytes(), k as u64, 1),
{
    __m256i { bytes: expand_bytes(&src.bytes, &mem_addr.read_bytes(), k as u64, 1) }
}

/// Loads consecutive 8-bit lanes from the start of memory into the lanes
/// that `k` selects, in order; the other lanes are zero.
pub fn _mm256_maskz_expandloadu_epi8<T: Is256BitsUnaligned>(
    k: __mmask32,
    mem_addr: &T,
) -> (r: __m256i)
    ensures
        r@ == expand(Seq::new(32, |j: int| 0u8), mem_addr.mem_bytes(), k as u64, 1),
{
    _mm256_mask_expandloadu_epi8(_mm256_setzero_si256(), k, mem_addr)
}

/// Loads consecutive 8-bit lanes from the start of memory into the lanes
/// that `k` selects, in order; the other lanes come from `src`.
pub fn _mm512_mask_expandloadu_epi8<T: Is512BitsUnaligned>(
    src: __m512i,
    k: __mmask64,
    mem_addr: &T,
) -> (r: __m512i)
    ensures
        r@ == expand(src@, mem_addr.mem_bytes(), k as u64, 1),
{
    __m512i { bytes: expand_bytes(&src.bytes, &mem_addr.read_bytes(), k as u64, 1) }
}

/// Loads consecutive 8-bit lanes from the start of memory into the lanes
/// that `k` selects, in order; the other lanes are zero.
pub fn _mm512_maskz_expandloadu_epi8<T: Is512BitsUnaligned>(
    k: __mmask64,
    mem_addr: &T,
) -> (r: __m512i)
    ensures
        r@ == expand(Seq::new(64, |j: int| 0u8), mem_addr.mem_bytes(), k as u64, 1),
{
    _mm512_mask_expandloadu_epi8(_mm512_setzero_si512(), k, mem_addr)
}

/// Stores the 16-bit lanes of `a` that `k` selects, in order, to consecutive
/// lanes from the start of memory; the bytes after them are left as they were.
pub fn _mm_mask_compressstoreu_epi16<T: Is128BitsUnaligned>(
    base_addr: &mut T,
    k: __mmask8,
    a: __m128i,
)
    ensures
        compressed(final(base_addr).mem_bytes(), old(base_addr).mem_bytes(), a@, k as u64, 2),
{
    let mut bytes = base_addr.read_bytes();
    compress_bytes(&mut bytes, &a.bytes, k as u64, 2);
    base_addr.write_bytes(&bytes);
}

/// Stores the 16-bit lanes of `a` that `k` selects, in order, to consecutive
/// lanes from the start of memory; the bytes after them are left as they were.
pub fn _mm256_mask_compressstoreu_epi16<T: Is256BitsUnaligned>(
    base_addr: &mut T,
    k: __mmask16,
    a: __m256i,
)
    ensures
        compressed(final(base_addr).mem_bytes(), old(base_addr).mem_bytes(), a@, k as u64, 2),
{
    let mut bytes = base_addr.read_bytes();
    compress_bytes(&mut bytes, &a.bytes, k as u64, 2);
    base_addr.write_bytes(&bytes);
}

/// Stores the 16-bit lanes of `a` that `k` selects, in order, to consecutive
/// lanes from the start of memory; the bytes after them are left as they were.
pub fn _mm512_mask_compressstoreu_epi16<T: Is512BitsUnaligned>(
    base_addr: &mut T,
    k: __mmask32,
    a: __m512i,
)
    ensures
        compressed(final(base_addr).mem_bytes(), old(base_addr).mem_bytes(), a@, k as u64, 2),
{
    let mut bytes = base_addr.read_bytes();
    compress_bytes(&mut bytes, &a.bytes, k as u64, 2);
    base_addr.write_bytes(&bytes);
}

/// Stores the 8-bit lanes of `a` that `k` selects, in order, to consecutive
/// lanes from the start of memory; the bytes after them are left as they were.
pub fn _mm_mask_compressstoreu_epi8<T: Is128BitsUnaligned>(
    base_addr: &mut T,
    k: __mmask16,
    a: __m128i,
)
    ensures
        compressed(final(base_addr).mem_bytes(), old(base_addr).mem_bytes(), a@, k as u64, 1),
{
    let mut bytes = base_addr.read_bytes();
    compress_bytes(&mut bytes, &a.bytes, k as u64, 1);
    base_addr.write_bytes(&bytes);
}

/// Stores the 8-bit lanes of `a` that `k` selects, in order, to consecutive
/// lanes from the start of memory; the bytes after them are left as they were.
pub fn _mm256_mask_compressstoreu_epi8<T: Is256BitsUnaligned>(
    base_addr: &mut T,
    k: __mmask32,
    a: __m256i,
)
    ensures
        compressed(final(base_addr).mem_bytes(), old(base_addr).mem_bytes(), a@, k as u64, 1),
{
    let mut bytes = base_addr.read_bytes();
    compress_bytes(&mut bytes, &a.bytes, k as u64, 1);
    base_addr.write_bytes(&bytes);
}

/// Stores the 8-bit lanes of `a` that `k` selects, in order, to consecutive
/// lanes from the start of memory; the bytes after them are left as they were.
pub fn _mm512_mask_compressstoreu_epi8<T: Is512BitsUnaligned>(
    base_addr: &mut T,
    k: __mmask64,
    a: __m512i,
)
    ensures
        compressed(final(base_addr).mem_bytes(), old(base_addr).mem_bytes(), a@, k as u64, 1),
{
    let mut bytes = base_addr.read_bytes();
    compress_bytes(&mut bytes, &a.bytes, k as u64, 1);
    base_addr.write_bytes(&bytes);
}

} // verus!
