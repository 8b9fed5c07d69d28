//! Loads and stores generic over `Cell` types.
//!
//! These take `&Cell<[T; N]>` or `&[Cell<T>; N]`, shared containers that allow
//! mutation while aliased, so that loads and stores may work on overlapping
//! parts of one buffer, as with raw pointers. What a cell holds can change
//! under any shared reference, so the contracts here state only what holds
//! whatever the cells held: which bytes of a narrow load are zero.
use vstd::prelude::*;

use crate::ops::copy_bytes;
use crate::traits::{
    CellUnaligned, Is128CellUnaligned, Is16CellUnaligned, Is256CellUnaligned, Is32CellUnaligned,
    Is64CellUnaligned,
};
use crate::x86::{__m128i, __m256i};

verus! {

/// Loads a 64-bit integer from the first eight bytes of the cells into the low
/// lane; the high lane is zero.
pub fn _mm_loadl_epi64<T: Is128CellUnaligned>(mem_addr: &T) -> (r: __m128i)
    ensures
        forall|j: int| 8 <= j < 16 ==> r@[j] == 0,
{
    let b = mem_addr.load_cells();
    let mut out = [0u8; 16];
    copy_bytes(&mut out, 0, &b, 0, 8);
    __m128i { bytes: out }
}

/// Loads 128 bits of integer data from the cells.
pub fn _mm_loadu_si128<T: Is128CellUnaligned>(mem_addr: &T) -> __m128i {
    __m128i { bytes: mem_addr.load_cells() }
}

/// Loads a 16-bit integer from the cells into the lowest bytes; the other bytes
/// are zero.
pub fn _mm_loadu_si16<T: Is16CellUnaligned>(mem_addr: &T) -> (r: __m128i)
    ensures
        forall|j: int| 2 <= j < 16 ==> r@[j] == 0,
{
    let b = mem_addr.load_cells();
    let mut out = [0u8; 16];
    copy_bytes(&mut out, 0, &b, 0, 2);
    __m128i { bytes: out }
}

/// Loads a 32-bit integer from the cells into the lowest bytes; the other bytes
/// are zero.
pub fn _mm_loadu_si32<T: Is32CellUnaligned>(mem_addr: &T) -> (r: __m128i)
    ensures
        forall|j: int| 4 <= j < 16 ==> r@[j] == 0,
{
    let b = mem_addr.load_cells();
    let mut out = [0u8; 16];
    copy_bytes(&mut out, 0, &b, 0, 4);
    __m128i { bytes: out }
}

/// Loads a 64-bit integer from the cells into the lowest bytes; the other bytes
/// are zero.
pub fn _mm_loadu_si64<T: Is64CellUnaligned>(mem_addr: &T) -> (r: __m128i)
    ensures
        forall|j: int| 8 <= j < 16 ==> r@[j] == 0,
{
    let b = mem_addr.load_cells();
    let mut out = [0u8; 16];
    copy_bytes(&mut out, 0, &b, 0, 8);
    __m128i { bytes: out }
}

/// Stores the low 64-bit lane of `a` to the first eight bytes of the cells;
/// the other eight bytes keep what they held.
pub fn _mm_storel_epi64<T: Is128CellUnaligned>(mem_addr: &T, a: __m128i) {
    let mut b = mem_addr.load_cells();
    copy_bytes(&mut b, 0, &a.bytes, 0, 8);
    mem_addr.store_cells(&b);
}

/// Stores 128 bits of integer data to the cells.
pub fn _mm_storeu_si128<T: Is128CellUnaligned>(mem_addr: &T, a: __m128i) {
    mem_addr.store_cells(&a.bytes);
}

/// Stores the lowest 16 bits of `a` to the cells.
pub fn _mm_storeu_si16<T: Is16CellUnaligned>(mem_addr: &T, a: __m128i) {
    let mut b = [0u8; 2];
    copy_bytes(&mut b, 0, &a.bytes, 0, 2);
    mem_addr.store_cells(&b);
}

/// Stores the lowest 32 bits of `a` to the cells.
pub fn _mm_storeu_si32<T: Is32CellUnaligned>(mem_addr: &T, a: __m128i) {
    let mut b = [0u8; 4];
    copy_bytes(&mut b, 0, &a.bytes, 0, 4);
    mem_addr.store_cells(&b);
}

/// Stores the lowest 64 bits of `a` to the cells.
pub fn _mm_storeu_si64<T: Is64CellUnaligned>(mem_addr: &T, a: __m128i) {
    let mut b = [0u8; 8];
    copy_bytes(&mut b, 0, &a.bytes, 0, 8);
    mem_addr.store_cells(&b);
}

/// Loads 256 bits of integer data from the cells.
pub fn _mm256_loadu_si256<T: Is256CellUnaligned>(mem_addr: &T) -> __m256i {
    __m256i { bytes: mem_addr.load_cells() }
}

/// Loads two 128-bit halves from two sets of cells: the low half from
/// `loaddr`, the high half from `hiaddr`.
pub fn _mm256_loadu2_m128i<T: Is128CellUnaligned>(hiaddr: &T, loaddr: &T) -> __m256i {
    let lo = loaddr.load_cells();
    let hi = hiaddr.load_cells();
    let mut out = [0u8; 32];
    copy_bytes(&mut out, 0, &lo, 0, 16);
    copy_bytes(&mut out, 16, &hi, 0, 16);
    __m256i { bytes: out }
}

/// Stores 256 bits of integer data to the cells.
pub fn _mm256_storeu_si256<T: Is256CellUnaligned>(mem_addr: &T, a: __m256i) {
    mem_addr.store_cells(&a.bytes);
}

/// Stores the two 128-bit halves of `a` to two sets of cells: the low half to
/// `loaddr`, the high half to `hiaddr`.
pub fn _mm256_storeu2_m128i<T: Is128CellUnaligned>(hiaddr: &T, loaddr: &T, a: __m256i) {
    let mut lo = [0u8; 16];
    let mut hi = [0u8; 16];
    copy_bytes(&mut lo, 0, &a.bytes, 0, 16);
    copy_bytes(&mut hi, 0, &a.bytes, 16, 16);
    loaddr.store_cells(&lo);
    hiaddr.store_cells(&hi);
}

} // verus!
