//! Loads and stores of the wasm32 `v128` register.
use vstd::prelude::*;

pub use crate::traits::{
    Is128BitsUnaligned as Is16BytesUnaligned, Is16BitsUnaligned as Is2BytesUnaligned,
    Is32BitsUnaligned as Is4BytesUnaligned, Is64BitsUnaligned as Is8BytesUnaligned,
    Is8BitsUnaligned as Is1ByteUnaligned,
};

use crate::ops::{extend, extend_bytes, splat, splat_bytes, zero_extend, zero_extend_bytes};
use crate::traits::Unaligned;

verus! {

/// A 128-bit vector register, held as its sixteen bytes, lowest first.
#[allow(non_camel_case_types)]
#[derive(Clone, Copy, Debug, PartialEq, Eq)]
pub struct v128 {
    /// The register's bytes, in the order they take in memory.
    pub bytes: [u8; 16],
}

impl View for v128 {
    type V = Seq<u8>;

    open spec fn view(&self) -> Seq<u8> {
        self.bytes@
    }
}

/// Loads eight signed 8-bit integers and sign-extends each to 16-bit.
pub fn i16x8_load_extend_i8x8<T: Is8BytesUnaligned>(t: &T) -> (r: v128)
    ensures
        r@ == extend(t.mem_bytes(), 1, 2, true, 16),
{
    v128 { bytes: extend_bytes(&t.read_bytes(), 8, 1, 2, true) }
}

/// Loads eight unsigned 8-bit integers and zero-extends each to 16-bit.
pub fn i16x8_load_extend_u8x8<T: Is8BytesUnaligned>(t: &T) -> (r: v128)
    ensures
        r@ == extend(t.mem_bytes(), 1, 2, false, 16),
{
    v128 { bytes: extend_bytes(&t.read_bytes(), 8, 1, 2, false) }
}

/// Loads four signed 16-bit integers and sign-extends each to 32-bit.
pub fn i32x4_load_extend_i16x4<T: Is8BytesUnaligned>(t: &T) -> (r: v128)
    ensures
        r@ == extend(t.mem_bytes(), 2, 4, true, 16),
{
    v128 { bytes: extend_bytes(&t.read_bytes(), 4, 2, 4, true) }
}

/// Loads four unsigned 16-bit integers and zero-extends each to 32-bit.
pub fn i32x4_load_extend_u16x4<T: Is8BytesUnaligned>(t: &T) -> (r: v128)
    ensures
        r@ == extend(t.mem_bytes(), 2, 4, false, 16),
{
    v128 { bytes: extend_bytes(&t.read_bytes(), 4, 2, 4, false) }
}

/// Loads two signed 32-bit integers and sign-extends each to 64-bit.
pub fn i64x2_load_extend_i32x2<T: Is8BytesUnaligned>(t: &T) -> (r: v128)
    ensures
        r@ == extend(t.mem_bytes(), 4, 8, true, 16),
{
    v128 { bytes: extend_bytes(&t.read_bytes(), 2, 4, 8, true) }
}

/// Loads two unsigned 32-bit integers and zero-extends each to 64-bit.
pub fn i64x2_load_extend_u32x2<T: Is8BytesUnaligned>(t: &T) -> (r: v128)
    ensures
        r@ == extend(t.mem_bytes(), 4, 8, false, 16),
{
    v128 { bytes: extend_bytes(&t.read_bytes(), 2, 4, 8, false) }
}

/// Loads eight unsigned 8-bit integers and zero-extends each to 16-bit.
pub fn u16x8_load_extend_u8x8<T: Is8BytesUnaligned>(t: &T) -> (r: v128)
    ensures
        r@ == extend(t.mem_bytes(), 1, 2, false, 16),
{
    v128 { bytes: extend_bytes(&t.read_bytes(), 8, 1, 2, false) }
}

/// Loads four unsigned 16-bit integers and zero-extends each to 32-bit.
pub fn u32x4_load_extend_u16x4<T: Is8BytesUnaligned>(t: &T) -> (r: v128)
    ensures
        r@ == extend(t.mem_bytes(), 2, 4, false, 16),
{
    v128 { bytes: extend_bytes(&t.read_bytes(), 4, 2, 4, false) }
}

/// Loads two unsigned 32-bit integers and zero-extends each to 64-bit.
pub fn u64x2_load_extend_u32x2<T: Is8BytesUnaligned>(t: &T) -> (r: v128)
    ensures
        r@ == extend(t.mem_bytes(), 4, 8, false, 16),
{
    v128 { bytes: extend_bytes(&t.read_bytes(), 2, 4, 8, false) }
}

/// Loads 128 bits from memory.
pub fn v128_load<T: Is16BytesUnaligned>(t: &T) -> (r: v128)
    ensures
        r@ == t.mem_bytes(),
{
    v128 { bytes: t.read_bytes() }
}

/// Loads a 8-bit value and repeats it in every 8-bit lane.
pub fn v128_load8_splat<T: Is1ByteUnaligned>(t: &T) -> (r: v128)
    ensures
        r@ == splat(t.mem_bytes(), 16),
{
    v128 { bytes: splat_bytes(&t.read_bytes()) }
}

/// Loads a 16-bit value and repeats it in every 16-bit lane.
pub fn v128_load16_splat<T: Is2BytesUnaligned>(t: &T) -> (r: v128)
    ensures
        r@ == splat(t.mem_bytes(), 16),
{
    v128 { bytes: splat_bytes(&t.read_bytes()) }
}

/// Loads a 32-bit value and repeats it in every 32-bit lane.
pub fn v128_load32_splat<T: Is4BytesUnaligned>(t: &T) -> (r: v128)
    ensures
        r@ == splat(t.mem_bytes(), 16),
{
    v128 { bytes: splat_bytes(&t.read_bytes()) }
}

/// Loads a 64-bit value and repeats it in every 64-bit lane.
pub fn v128_load64_splat<T: Is8BytesUnaligned>(t: &T) -> (r: v128)
    ensures
        r@ == splat(t.mem_bytes(), 16),
{
    v128 { bytes: splat_bytes(&t.read_bytes()) }
}

/// Loads a 32-bit value into the low lane; the other bytes are zero.
pub fn v128_load32_zero<T: Is4BytesUnaligned>(t: &T) -> (r: v128)
    ensures
        r@ == zero_extend(t.mem_bytes(), 16),
{
    v128 { bytes: zero_extend_bytes(&t.read_bytes()) }
}

/// Loads a 64-bit value into the low lane; the other bytes are zero.
pub fn v128_load64_zero<T: Is8BytesUnaligned>(t: &T) -> (r: v128)
    ensures
        r@ == zero_extend(t.mem_bytes(), 16),
{
    v128 { bytes: zero_extend_bytes(&t.read_bytes()) }
}

/// Stores 128 bits to memory.
pub fn v128_store<T: Is16BytesUnaligned>(t: &mut T, v: v128)
    ensures
        final(t).mem_bytes() == v@,
{
    t.write_bytes(&v.bytes);
}

} // verus!
