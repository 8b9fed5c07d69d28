//! Loads and stores of the x86 and x86_64 vector registers.
//!
//! A register is held by value as its bytes, lowest lane first, which is the
//! order in which it lies in memory. Every operation reads or writes memory
//! through the byte image that the width-capability traits give each operand,
//! and states the bytes it moves.
use vstd::prelude::*;

use crate::sealed::Sealed;
use crate::traits::Unaligned;

mod avx;
mod avx512bw;
mod avx512f;
mod avx512vbmi2;
pub mod cell;
mod nt;
mod sse2;

pub use self::sse2::{
    _mm_loadl_epi64, _mm_loadu_si128, _mm_loadu_si16, _mm_loadu_si32, _mm_loadu_si64,
    _mm_storel_epi64, _mm_storeu_si128, _mm_storeu_si16, _mm_storeu_si32, _mm_storeu_si64,
};
pub use self::avx::{
    _mm256_loadu_si256, _mm256_loadu2_m128i, _mm256_storeu_si256, _mm256_storeu2_m128i,
};
pub use self::avx512f::{
    _mm_mask_expandloadu_epi32, _mm_maskz_expandloadu_epi32, _mm256_mask_expandloadu_epi32,
    _mm256_maskz_expandloadu_epi32, _mm512_mask_expandloadu_epi32, _mm512_maskz_expandloadu_epi32,
    _mm_mask_expandloadu_epi64, _mm_maskz_expandloadu_epi64, _mm256_mask_expandloadu_epi64,
    _mm256_maskz_expandloadu_epi64, _mm512_mask_expandloadu_epi64, _mm512_maskz_expandloadu_epi64,
    _mm_loadu_epi32, _mm_mask_loadu_epi32, _mm_maskz_loadu_epi32, _mm256_loadu_epi32,
    _mm256_mask_loadu_epi32, _mm256_maskz_loadu_epi32, _mm512_loadu_epi32,
    _mm512_mask_loadu_epi32, _mm512_maskz_loadu_epi32, _mm_loadu_epi64, _mm_mask_loadu_epi64,
    _mm_maskz_loadu_epi64, _mm256_loadu_epi64, _mm256_mask_loadu_epi64, _mm256_maskz_loadu_epi64,
    _mm512_loadu_epi64, _mm512_mask_loadu_epi64, _mm512_maskz_loadu_epi64, _mm512_loadu_si512,
    _mm_mask_compressstoreu_epi32, _mm256_mask_compressstoreu_epi32,
    _mm512_mask_compressstoreu_epi32, _mm_mask_compressstoreu_epi64,
    _mm256_mask_compressstoreu_epi64, _mm512_mask_compressstoreu_epi64, _mm_mask_storeu_epi32,
    _mm_storeu_epi32, _mm256_mask_storeu_epi32, _mm256_storeu_epi32, _mm512_mask_storeu_epi32,
    _mm512_storeu_epi32, _mm_mask_storeu_epi64, _mm_storeu_epi64, _mm256_mask_storeu_epi64,
    _mm256_storeu_epi64, _mm512_mask_storeu_epi64, _mm512_storeu_epi64, _mm512_storeu_si512,
};
pub use self::avx512bw::{
    _mm_loadu_epi16, _mm_mask_loadu_epi16, _mm_maskz_loadu_epi16, _mm256_loadu_epi16,
    _mm256_mask_loadu_epi16, _mm256_maskz_loadu_epi16, _mm512_loadu_epi16,
    _mm512_mask_loadu_epi16, _mm512_maskz_loadu_epi16, _mm_loadu_epi8, _mm_mask_loadu_epi8,
    _mm_maskz_loadu_epi8, _mm256_loadu_epi8, _mm256_mask_loadu_epi8, _mm256_maskz_loadu_epi8,
    _mm512_loadu_epi8, _mm512_mask_loadu_epi8, _mm512_maskz_loadu_epi8,
    _mm_mask_cvtepi16_storeu_epi8, _mm256_mask_cvtepi16_storeu_epi8,
    _mm512_mask_cvtepi16_storeu_epi8, _mm_mask_cvtsepi16_storeu_epi8,
    _mm256_mask_cvtsepi16_storeu_epi8, _mm512_mask_cvtsepi16_storeu_epi8,
    _mm_mask_cvtusepi16_storeu_epi8, _mm256_mask_cvtusepi16_storeu_epi8,
    _mm512_mask_cvtusepi16_storeu_epi8, _mm_mask_storeu_epi16, _mm_storeu_epi16,
    _mm256_mask_storeu_epi16, _mm256_storeu_epi16, _mm512_mask_storeu_epi16, _mm512_storeu_epi16,
    _mm_mask_storeu_epi8, _mm_storeu_epi8, _mm256_mask_storeu_epi8, _mm256_storeu_epi8,
    _mm512_mask_storeu_epi8, _mm512_storeu_epi8,
};
pub use self::avx512vbmi2::{
    _mm_mask_expandloadu_epi16, _mm_maskz_expandloadu_epi16, _mm256_mask_expandloadu_epi16,
    _mm256_maskz_expandloadu_epi16, _mm512_mask_expandloadu_epi16, _mm512_maskz_expandloadu_epi16,
    _mm_mask_expandloadu_epi8, _mm_maskz_expandloadu_epi8, _mm256_mask_expandloadu_epi8,
    _mm256_maskz_expandloadu_epi8, _mm512_mask_expandloadu_epi8, _mm512_maskz_expandloadu_epi8,
    _mm_mask_compressstoreu_epi16, _mm256_mask_compressstoreu_epi16,
    _mm512_mask_compressstoreu_epi16, _mm_mask_compressstoreu_epi8,
    _mm256_mask_compressstoreu_epi8, _mm512_mask_compressstoreu_epi8,
};
pub use self::nt::{
    NonTemporalScope, NonTemporalStoreable, _mm256_stream_si256, _mm256_stream_store_256i,
    _mm_stream_si128, _mm_stream_si32,
};
pub use crate::traits::{
    Is128BitsUnaligned, Is128CellUnaligned, Is16BitsUnaligned, Is16CellUnaligned,
    Is256BitsUnaligned, Is256CellUnaligned, Is32BitsUnaligned, Is32CellUnaligned,
    Is512BitsUnaligned, Is64BitsUnaligned, Is64CellUnaligned,
};

verus! {

/// An 8-lane mask: bit `i` selects lane `i`.
#[allow(non_camel_case_types)]
pub type __mmask8 = u8;

/// A 16-lane mask: bit `i` selects lane `i`.
#[allow(non_camel_case_types)]
pub type __mmask16 = u16;

/// A 32-lane mask: bit `i` selects lane `i`.
#[allow(non_camel_case_types)]
pub type __mmask32 = u32;

/// A 64-lane mask: bit `i` selects lane `i`.
#[allow(non_camel_case_types)]
pub type __mmask64 = u64;

/// A 128-bit integer vector register, held as its 16 bytes, lowest first.
#[allow(non_camel_case_types)]
#[derive(Clone, Copy, Debug, PartialEq, Eq)]
pub struct __m128i {
    /// The register's bytes, in the order they take in memory.
    pub bytes: [u8; 16],
}

impl View for __m128i {
    type V = Seq<u8>;

    open spec fn view(&self) -> Seq<u8> {
        self.bytes@
    }
}

impl Sealed for __m128i {}

/// A register in memory occupies its own bytes.
impl Unaligned<16> for __m128i {
    open spec fn mem_bytes(&self) -> Seq<u8> {
        self.bytes@
    }

    proof fn lemma_width(&self) {
    }

    fn read_bytes(&self) -> (r: [u8; 16]) {
        self.bytes
    }

    fn write_bytes(&mut self, bytes: &[u8; 16]) {
        self.bytes = *bytes;
    }
}

/// The 128-bit register with every bit clear.
pub fn _mm_setzero_si128() -> (r: __m128i)
    ensures
        r@ == Seq::new(16, |j: int| 0u8),
{
    let r = __m128i { bytes: [0u8; 16] };
    assert(r@ =~= Seq::new(16, |j: int| 0u8));
    r
}

/// A 256-bit integer vector register, held as its 32 bytes, lowest first.
#[allow(non_camel_case_types)]
#[derive(Clone, Copy, Debug, PartialEq, Eq)]
pub struct __m256i {
    /// The register's bytes, in the order they take in memory.
    pub bytes: [u8; 32],
}

impl View for __m256i {
    type V = Seq<u8>;

    open spec fn view(&self) -> Seq<u8> {
        self.bytes@
    }
}

impl Sealed for __m256i {}

/// A register in memory occupies its own bytes.
impl Unaligned<32> for __m256i {
    open spec fn mem_bytes(&self) -> Seq<u8> {
        self.bytes@
    }

    proof fn lemma_width(&self) {
    }

    fn read_bytes(&self) -> (r: [u8; 32]) {
        self.bytes
    }

    fn write_bytes(&mut self, bytes: &[u8; 32]) {
        self.bytes = *bytes;
    }
}

/// The 256-bit register with every bit clear.
pub fn _mm256_setzero_si256() -> (r: __m256i)
    ensures
        r@ == Seq::new(32, |j: int| 0u8),
{
    let r = __m256i { bytes: [0u8; 32] };
    assert(r@ =~= Seq::new(32, |j: int| 0u8));
    r
}

/// A 512-bit integer vector register, held as its 64 bytes, lowest first.
#[allow(non_camel_case_types)]
#[derive(Clone, Copy, Debug, PartialEq, Eq)]
pub struct __m512i {
    /// The register's bytes, in the order they take in memory.
    pub bytes: [u8; 64],
}

impl View for __m512i {
    type V = Seq<u8>;

    open spec fn view(&self) -> Seq<u8> {
        self.bytes@
    }
}

impl Sealed for __m512i {}

/// A register in memory occupies its own bytes.
impl Unaligned<64> for __m512i {
    open spec fn mem_bytes(&self) -> Seq<u8> {
        self.bytes@
    }

    proof fn lemma_width(&self) {
    }

    fn read_bytes(&self) -> (r: [u8; 64]) {
        self.bytes
    }

    fn write_bytes(&mut self, bytes: &[u8; 64]) {
        self.bytes = *bytes;
    }
}

/// The 512-bit register with every bit clear.
pub fn _mm512_setzero_si512() -> (r: __m512i)
    ensures
        r@ == Seq::new(64, |j: int| 0u8),
{
    let r = __m512i { bytes: [0u8; 64] };
    assert(r@ =~= Seq::new(64, |j: int| 0u8));
    r
}

} // verus!
