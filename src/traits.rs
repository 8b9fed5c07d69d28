//! The width-capability traits.
//!
//! A type implements [`Unaligned<W>`] when each of its values occupies exactly
//! `W` bytes of plain integer data. Each implementation states the value's
//! byte image and proves that it is `W` bytes long; the crate then reads and
//! writes values of the type only through that image. The trait is sealed, so
//! the set of implementations is closed: the integer types and arrays below,
//! and the x86 registers themselves.
//!
//! The marker traits `IsNBitsUnaligned` name the widths that load and store
//! operations take; every `Unaligned<W>` type has the marker of its width.
//! The `IsNCellUnaligned` traits extend these to shared mutable containers:
//! `Cell<T>` and `[Cell<T>; N]`, where `T` and `[T; N]` have the plain
//! capability. Each of the two implementations takes off exactly one layer of
//! `Cell`, so resolving them always ends.
use core::cell::Cell;
use vstd::prelude::*;

use crate::lane::Lane;
use crate::ops::{lemma_lane_position, lemma_next_lane};
use crate::sealed::Sealed;

verus! {

/// The bytes of a sequence of lanes, lane after lane.
pub open spec fn lanes_le<L: Lane>(s: Seq<L>) -> Seq<u8> {
    Seq::new(
        s.len() * L::width(),
        |j: int| s[j / (L::width() as int)].le_bytes()[j % (L::width() as int)],
    )
}

/// A value that occupies exactly `W` bytes of plain integer data.
pub trait Unaligned<const W: usize>: Sealed + Sized {
    /// The bytes the value occupies in memory, lowest address first.
    spec fn mem_bytes(&self) -> Seq<u8>;

    /// The value occupies exactly `W` bytes.
    proof fn lemma_width(&self)
        ensures
            self.mem_bytes().len() == W,
    ;

    /// Copies out the value's bytes.
    fn read_bytes(&self) -> (r: [u8; W])
        ensures
            r@ == self.mem_bytes(),
    ;

    /// Overwrites the value with the one whose bytes are `bytes`.
    fn write_bytes(&mut self, bytes: &[u8; W])
        ensures
            final(self).mem_bytes() == bytes@,
    ;
}

/// A value that occupies `W` bytes and sits inside `Cell`s, so that it can be
/// read and written through a shared reference.
///
/// What a cell holds can change under any shared reference to it, so these
/// operations state nothing of the bytes they move: Verus sees a `Cell` by its
/// identity alone.
pub trait CellUnaligned<const W: usize>: Sealed {
    /// Copies out the `W` bytes that the cells hold.
    fn load_cells(&self) -> [u8; W];

    /// Stores `bytes` into the cells.
    fn store_cells(&self, bytes: &[u8; W]);
}

/// Marks a type as valid for unaligned operations as an [`i8`].
pub trait Is8BitsUnaligned: Unaligned<1> {}

impl<T: Unaligned<1>> Is8BitsUnaligned for T {}

/// Marks a type as valid for unaligned operations as an [`i16`].
pub trait Is16BitsUnaligned: Unaligned<2> {}

impl<T: Unaligned<2>> Is16BitsUnaligned for T {}

/// Marks a type as valid for unaligned operations as an [`i32`].
pub trait Is32BitsUnaligned: Unaligned<4> {}

impl<T: Unaligned<4>> Is32BitsUnaligned for T {}

/// Marks a type as valid for unaligned operations as an [`i64`].
pub trait Is64BitsUnaligned: Unaligned<8> {}

impl<T: Unaligned<8>> Is64BitsUnaligned for T {}

/// Marks a type as valid for unaligned operations as a 128-bit integer
/// vector, such as `__m128i` or `v128`.
pub trait Is128BitsUnaligned: Unaligned<16> {}

impl<T: Unaligned<16>> Is128BitsUnaligned for T {}

/// Marks a type as valid for unaligned operations as a 256-bit integer
/// vector, such as `__m256i`.
pub trait Is256BitsUnaligned: Unaligned<32> {}

impl<T: Unaligned<32>> Is256BitsUnaligned for T {}

/// Marks a type as valid for unaligned operations as a 512-bit integer
/// vector, such as `__m512i`.
pub trait Is512BitsUnaligned: Unaligned<64> {}

impl<T: Unaligned<64>> Is512BitsUnaligned for T {}

/// Marks a cell-like type as valid for unaligned operations as an [`i16`], on
/// shared references.
pub trait Is16CellUnaligned: CellUnaligned<2> {}

impl<T: CellUnaligned<2>> Is16CellUnaligned for T {}

/// Marks a cell-like type as valid for unaligned operations as an [`i32`], on
/// shared references.
pub trait Is32CellUnaligned: CellUnaligned<4> {}

impl<T: CellUnaligned<4>> Is32CellUnaligned for T {}

/// Marks a cell-like type as valid for unaligned operations as an [`i64`], on
/// shared references.
pub trait Is64CellUnaligned: CellUnaligned<8> {}

impl<T: CellUnaligned<8>> Is64CellUnaligned for T {}

/// Marks a cell-like type as valid for unaligned operations as a 128-bit
/// integer vector, such as `__m128i` or `v128`, on shared references.
pub trait Is128CellUnaligned: CellUnaligned<16> {}

impl<T: CellUnaligned<16>> Is128CellUnaligned for T {}

/// Marks a cell-like type as valid for unaligned operations as a 256-bit
/// integer vector, such as `__m256i`, on shared references.
pub trait Is256CellUnaligned: CellUnaligned<32> {}

impl<T: CellUnaligned<32>> Is256CellUnaligned for T {}

/// `core::cell::Cell`, whose contents Verus does not track.
#[verifier::external_type_specification]
#[verifier::external_body]
#[verifier::reject_recursive_types(T)]
pub struct ExCell<T: ?Sized>(Cell<T>);

/// Relies on `Cell::get`: it returns a copy of the contents and does not panic.
pub assume_specification<T: Copy>[ Cell::<T>::get ](cell: &Cell<T>) -> T;

/// Relies on `Cell::set`: it replaces the contents and does not panic.
pub assume_specification<T>[ Cell::<T>::set ](cell: &Cell<T>, val: T);

impl<T: Sealed> Sealed for Cell<T> {}

impl<T, const N: usize> Sealed for [Cell<T>; N] where [T; N]: Sealed {}

/// A single cell around a value of width `W`.
impl<T: Unaligned<W> + Copy, const W: usize> CellUnaligned<W> for Cell<T> {
    fn load_cells(&self) -> [u8; W] {
        self.get().read_bytes()
    }

    fn store_cells(&self, bytes: &[u8; W]) {
        let mut v = self.get();
        v.write_bytes(bytes);
        self.set(v);
    }
}

/// An array of cells whose contents, taken together, have width `W`.
///
/// Every array type with a capability is `N` lanes that fill its `W` bytes
/// exactly, so the two bounds of the loops below are reached together.
impl<T: Lane, const N: usize, const W: usize> CellUnaligned<W> for [Cell<T>; N] where
    [T; N]: Unaligned<W>,
 {
    fn load_cells(&self) -> [u8; W] {
        let w = T::byte_width();
        let mut out = [0u8; W];
        let mut i: usize = 0;
        let mut at: usize = 0;
        while i < N && w <= W - at
            invariant
                w == T::width(),
                at <= W,
            decreases N - i,
        {
            self[i].get().put_le(&mut out, at);
            i = i + 1;
            at = at + w;
        }
        out
    }

    fn store_cells(&self, bytes: &[u8; W]) {
        let w = T::byte_width();
        let mut i: usize = 0;
        let mut at: usize = 0;
        while i < N && w <= W - at
            invariant
                w == T::width(),
                at <= W,
            decreases N - i,
        {
            self[i].set(T::get_le(bytes, at));
            i = i + 1;
            at = at + w;
        }
    }
}

/// The bytes of the lanes of `a`, lane after lane.
fn encode_lanes<L: Lane, const N: usize, const W: usize>(a: &[L; N]) -> (r: [u8; W])
    requires
        N * L::width() == W,
    ensures
        r@ == lanes_le(a@),
{
    let w = L::byte_width();
    let mut out = [0u8; W];
    let mut i: usize = 0;
    let mut at: usize = 0;
    while i < N
        invariant
            w == L::width(),
            N * L::width() == W,
            0 <= i <= N,
            at == i * w,
            forall|j: int|
                0 <= j < at ==> out@[j] == #[trigger] a@[j / (w as int)].le_bytes()[j % (w as int)],
        decreases N - i,
    {
        proof {
            a@[i as int].lemma_le_bytes();
            lemma_next_lane(i as int, w as int);
            vstd::arithmetic::mul::lemma_mul_inequality(i as int + 1, N as int, w as int);
        }
        a[i].put_le(&mut out, at);
        assert forall|j: int| 0 <= j < at + w implies out@[j] == #[trigger] a@[j / (
            w as int)].le_bytes()[j % (w as int)] by {
            if j >= at {
                lemma_lane_position(i as int, j - at, w as int);
            }
        }
        i = i + 1;
        at = at + w;
    }
    assert(out@ =~= lanes_le(a@));
    out
}

/// Overwrites the lanes of `a` with the lanes whose bytes are `b`.
fn decode_lanes<L: Lane, const N: usize, const W: usize>(a: &mut [L; N], b: &[u8; W])
    requires
        N * L::width() == W,
    ensures
        lanes_le(final(a)@) == b@,
{
    let w = L::byte_width();
    let mut i: usize = 0;
    let mut at: usize = 0;
    while i < N
        invariant
            w == L::width(),
            N * L::width() == W,
            0 <= i <= N,
            at == i * w,
            forall|k: int|
                0 <= k < i ==> (#[trigger] a@[k]).le_bytes() == b@.subrange(k * w, k * w + w),
        decreases N - i,
    {
        proof {
            lemma_next_lane(i as int, w as int);
            vstd::arithmetic::mul::lemma_mul_inequality(i as int + 1, N as int, w as int);
        }
        let v = L::get_le(b, at);
        a[i] = v;
        i = i + 1;
        at = at + w;
    }
    assert forall|j: int| 0 <= j < W implies #[trigger] lanes_le(a@)[j] == b@[j] by {
        let k = j / (w as int);
        let o = j % (w as int);
        vstd::arithmetic::div_mod::lemma_fundamental_div_mod(j, w as int);
        vstd::arithmetic::div_mod::lemma_div_pos_is_pos(j, w as int);
        vstd::arithmetic::div_mod::lemma_mod_bound(j, w as int);
        vstd::arithmetic::mul::lemma_mul_is_commutative(k, w as int);
        assert(k < N) by {
            if k >= N {
                vstd::arithmetic::mul::lemma_mul_inequality(N as int, k, w as int);
            }
        }
        lemma_next_lane(k, w as int);
        vstd::arithmetic::mul::lemma_mul_inequality(k + 1, N as int, w as int);
        assert(a@[k].le_bytes() == b@.subrange(k * w, k * w + w));
        assert(lanes_le(a@)[j] == a@[k].le_bytes()[o]);
        assert(b@.subrange(k * w, k * w + w)[o] == b@[j]);
    }
    assert(lanes_le(a@) =~= b@);
}

// 8-bit types

impl Sealed for [u8; 1] {}

impl Unaligned<1> for [u8; 1] {
    open spec fn mem_bytes(&self) -> Seq<u8> {
        lanes_le(self@)
    }

    proof fn lemma_width(&self) {
    }

    fn read_bytes(&self) -> (r: [u8; 1]) {
        encode_lanes(self)
    }

    fn write_bytes(&mut self, bytes: &[u8; 1]) {
        decode_lanes(self, bytes)
    }
}

impl Sealed for [i8; 1] {}

impl Unaligned<1> for [i8; 1] {
    open spec fn mem_bytes(&self) -> Seq<u8> {
        lanes_le(self@)
    }

    proof fn lemma_width(&self) {
    }

    fn read_bytes(&self) -> (r: [u8; 1]) {
        encode_lanes(self)
    }

    fn write_bytes(&mut self, bytes: &[u8; 1]) {
        decode_lanes(self, bytes)
    }
}

impl Unaligned<1> for u8 {
    open spec fn mem_bytes(&self) -> Seq<u8> {
        self.le_bytes()
    }

    proof fn lemma_width(&self) {
    }

    fn read_bytes(&self) -> (r: [u8; 1]) {
        let mut out = [0u8; 1];
        self.put_le(&mut out, 0);
        assert(out@ =~= self.le_bytes());
        out
    }

    fn write_bytes(&mut self, bytes: &[u8; 1]) {
        *self = <u8 as Lane>::get_le(bytes, 0);
        assert(bytes@.subrange(0, 1) =~= bytes@);
    }
}

impl Unaligned<1> for i8 {
    open spec fn mem_bytes(&self) -> Seq<u8> {
        self.le_bytes()
    }

    proof fn lemma_width(&self) {
    }

    fn read_bytes(&self) -> (r: [u8; 1]) {
        let mut out = [0u8; 1];
        self.put_le(&mut out, 0);
        assert(out@ =~= self.le_bytes());
        out
    }

    fn write_bytes(&mut self, bytes: &[u8; 1]) {
        *self = <i8 as Lane>::get_le(bytes, 0);
        assert(bytes@.subrange(0, 1) =~= bytes@);
    }
}

// 16-bit types

impl Sealed for [u8; 2] {}

impl Unaligned<2> for [u8; 2] {
    open spec fn mem_bytes(&self) -> Seq<u8> {
        lanes_le(self@)
    }

    proof fn lemma_width(&self) {
    }

    fn read_bytes(&self) -> (r: [u8; 2]) {
        encode_lanes(self)
    }

    fn write_bytes(&mut self, bytes: &[u8; 2]) {
        decode_lanes(self, bytes)
    }
}

impl Sealed for [i8; 2] {}

impl Unaligned<2> for [i8; 2] {
    open spec fn mem_bytes(&self) -> Seq<u8> {
        lanes_le(self@)
    }

    proof fn lemma_width(&self) {
    }

    fn read_bytes(&self) -> (r: [u8; 2]) {
        encode_lanes(self)
    }

    fn write_bytes(&mut self, bytes: &[u8; 2]) {
        decode_lanes(self, bytes)
    }
}

impl Sealed for [u16; 1] {}

impl Unaligned<2> for [u16; 1] {
    open spec fn mem_bytes(&self) -> Seq<u8> {
        lanes_le(self@)
    }

    proof fn lemma_width(&self) {
    }

    fn read_bytes(&self) -> (r: [u8; 2]) {
        encode_lanes(self)
    }

    fn write_bytes(&mut self, bytes: &[u8; 2]) {
        decode_lanes(self, bytes)
    }
}

impl Sealed for [i16; 1] {}

impl Unaligned<2> for [i16; 1] {
    open spec fn mem_bytes(&self) -> Seq<u8> {
        lanes_le(self@)
    }

    proof fn lemma_width(&self) {
    }

    fn read_bytes(&self) -> (r: [u8; 2]) {
        encode_lanes(self)
    }

    fn write_bytes(&mut self, bytes: &[u8; 2]) {
        decode_lanes(self, bytes)
    }
}

impl Unaligned<2> for u16 {
    open spec fn mem_bytes(&self) -> Seq<u8> {
        self.le_bytes()
    }

    proof fn lemma_width(&self) {
    }

    fn read_bytes(&self) -> (r: [u8; 2]) {
        let mut out = [0u8; 2];
        self.put_le(&mut out, 0);
        assert(out@ =~= self.le_bytes());
        out
    }

    fn write_bytes(&mut self, bytes: &[u8; 2]) {
        *self = <u16 as Lane>::get_le(bytes, 0);
        assert(bytes@.subrange(0, 2) =~= bytes@);
    }
}

impl Unaligned<2> for i16 {
    open spec fn mem_bytes(&self) -> Seq<u8> {
        self.le_bytes()
    }

    proof fn lemma_width(&self) {
    }

    fn read_bytes(&self) -> (r: [u8; 2]) {
        let mut out = [0u8; 2];
        self.put_le(&mut out, 0);
        assert(out@ =~= self.le_bytes());
        out
    }

    fn write_bytes(&mut self, bytes: &[u8; 2]) {
        *self = <i16 as Lane>::get_le(bytes, 0);
        assert(bytes@.subrange(0, 2) =~= bytes@);
    }
}

// 32-bit types

impl Sealed for [u8; 4] {}

impl Unaligned<4> for [u8; 4] {
    open spec fn mem_bytes(&self) -> Seq<u8> {
        lanes_le(self@)
    }

    proof fn lemma_width(&self) {
    }

    fn read_bytes(&self) -> (r: [u8; 4]) {
        encode_lanes(self)
    }

    fn write_bytes(&mut self, bytes: &[u8; 4]) {
        decode_lanes(self, bytes)
    }
}

impl Sealed for [i8; 4] {}

impl Unaligned<4> for [i8; 4] {
    open spec fn mem_bytes(&self) -> Seq<u8> {
        lanes_le(self@)
    }

    proof fn lemma_width(&self) {
    }

    fn read_bytes(&self) -> (r: [u8; 4]) {
        encode_lanes(self)
    }

    fn write_bytes(&mut self, bytes: &[u8; 4]) {
        decode_lanes(self, bytes)
    }
}

impl Sealed for [u16; 2] {}

impl Unaligned<4> for [u16; 2] {
    open spec fn mem_bytes(&self) -> Seq<u8> {
        lanes_le(self@)
    }

    proof fn lemma_width(&self) {
    }

    fn read_bytes(&self) -> (r: [u8; 4]) {
        encode_lanes(self)
    }

    fn write_bytes(&mut self, bytes: &[u8; 4]) {
        decode_lanes(self, bytes)
    }
}

impl Sealed for [i16; 2] {}

impl Unaligned<4> for [i16; 2] {
    open spec fn mem_bytes(&self) -> Seq<u8> {
        lanes_le(self@)
    }

    proof fn lemma_width(&self) {
    }

    fn read_bytes(&self) -> (r: [u8; 4]) {
        encode_lanes(self)
    }

    fn write_bytes(&mut self, bytes: &[u8; 4]) {
        decode_lanes(self, bytes)
    }
}

impl Sealed for [u32; 1] {}

impl Unaligned<4> for [u32; 1] {
    open spec fn mem_bytes(&self) -> Seq<u8> {
        lanes_le(self@)
    }

    proof fn lemma_width(&self) {
    }

    fn read_bytes(&self) -> (r: [u8; 4]) {
        encode_lanes(self)
    }

    fn write_bytes(&mut self, bytes: &[u8; 4]) {
        decode_lanes(self, bytes)
    }
}

impl Sealed for [i32; 1] {}

impl Unaligned<4> for [i32; 1] {
    open spec fn mem_bytes(&self) -> Seq<u8> {
        lanes_le(self@)
    }

    proof fn lemma_width(&self) {
    }

    fn read_bytes(&self) -> (r: [u8; 4]) {
        encode_lanes(self)
    }

    fn write_bytes(&mut self, bytes: &[u8; 4]) {
        decode_lanes(self, bytes)
    }
}

impl Unaligned<4> for u32 {
    open spec fn mem_bytes(&self) -> Seq<u8> {
        self.le_bytes()
    }

    proof fn lemma_width(&self) {
    }

    fn read_bytes(&self) -> (r: [u8; 4]) {
        let mut out = [0u8; 4];
        self.put_le(&mut out, 0);
        assert(out@ =~= self.le_bytes());
        out
    }

    fn write_bytes(&mut self, bytes: &[u8; 4]) {
        *self = <u32 as Lane>::get_le(bytes, 0);
        assert(bytes@.subrange(0, 4) =~= bytes@);
    }
}

impl Unaligned<4> for i32 {
    open spec fn mem_bytes(&self) -> Seq<u8> {
        self.le_bytes()
    }

    proof fn lemma_width(&self) {
    }

    fn read_bytes(&self) -> (r: [u8; 4]) {
        let mut out = [0u8; 4];
        self.put_le(&mut out, 0);
        assert(out@ =~= self.le_bytes());
        out
    }

    fn write_bytes(&mut self, bytes: &[u8; 4]) {
        *self = <i32 as Lane>::get_le(bytes, 0);
        assert(bytes@.subrange(0, 4) =~= bytes@);
    }
}

// 64-bit types

impl Sealed for [u8; 8] {}

impl Unaligned<8> for [u8; 8] {
    open spec fn mem_bytes(&self) -> Seq<u8> {
        lanes_le(self@)
    }

    proof fn lemma_width(&self) {
    }

    fn read_bytes(&self) -> (r: [u8; 8]) {
        encode_lanes(self)
    }

    fn write_bytes(&mut self, bytes: &[u8; 8]) {
        decode_lanes(self, bytes)
    }
}

impl Sealed for [i8; 8] {}

impl Unaligned<8> for [i8; 8] {
    open spec fn mem_bytes(&self) -> Seq<u8> {
        lanes_le(self@)
    }

    proof fn lemma_width(&self) {
    }

    fn read_bytes(&self) -> (r: [u8; 8]) {
        encode_lanes(self)
    }

    fn write_bytes(&mut self, bytes: &[u8; 8]) {
        decode_lanes(self, bytes)
    }
}

impl Sealed for [u16; 4] {}

impl Unaligned<8> for [u16; 4] {
    open spec fn mem_bytes(&self) -> Seq<u8> {
        lanes_le(self@)
    }

    proof fn lemma_width(&self) {
    }

    fn read_bytes(&self) -> (r: [u8; 8]) {
        encode_lanes(self)
    }

    fn write_bytes(&mut self, bytes: &[u8; 8]) {
        decode_lanes(self, bytes)
    }
}

impl Sealed for [i16; 4] {}

impl Unaligned<8> for [i16; 4] {
    open spec fn mem_bytes(&self) -> Seq<u8> {
        lanes_le(self@)
    }

    proof fn lemma_width(&self) {
    }

    fn read_bytes(&self) -> (r: [u8; 8]) {
        encode_lanes(self)
    }

    fn write_bytes(&mut self, bytes: &[u8; 8]) {
        decode_lanes(self, bytes)
    }
}

impl Sealed for [u32; 2] {}

impl Unaligned<8> for [u32; 2] {
    open spec fn mem_bytes(&self) -> Seq<u8> {
        lanes_le(self@)
    }

    proof fn lemma_width(&self) {
    }

    fn read_bytes(&self) -> (r: [u8; 8]) {
        encode_lanes(self)
    }

    fn write_bytes(&mut self, bytes: &[u8; 8]) {
        decode_lanes(self, bytes)
    }
}

impl Sealed for [i32; 2] {}

impl Unaligned<8> for [i32; 2] {
    open spec fn mem_bytes(&self) -> Seq<u8> {
        lanes_le(self@)
    }

    proof fn lemma_width(&self) {
    }

    fn read_bytes(&self) -> (r: [u8; 8]) {
        encode_lanes(self)
    }

    fn write_bytes(&mut self, bytes: &[u8; 8]) {
        decode_lanes(self, bytes)
    }
}

impl Sealed for [u64; 1] {}

impl Unaligned<8> for [u64; 1] {
    open spec fn mem_bytes(&self) -> Seq<u8> {
        lanes_le(self@)
    }

    proof fn lemma_width(&self) {
    }

    fn read_bytes(&self) -> (r: [u8; 8]) {
        encode_lanes(self)
    }

    fn write_bytes(&mut self, bytes: &[u8; 8]) {
        decode_lanes(self, bytes)
    }
}

impl Sealed for [i64; 1] {}

impl Unaligned<8> for [i64; 1] {
    open spec fn mem_bytes(&self) -> Seq<u8> {
        lanes_le(self@)
    }

    proof fn lemma_width(&self) {
    }

    fn read_bytes(&self) -> (r: [u8; 8]) {
        encode_lanes(self)
    }

    fn write_bytes(&mut self, bytes: &[u8; 8]) {
        decode_lanes(self, bytes)
    }
}

impl Unaligned<8> for u64 {
    open spec fn mem_bytes(&self) -> Seq<u8> {
        self.le_bytes()
    }

    proof fn lemma_width(&self) {
    }

    fn read_bytes(&self) -> (r: [u8; 8]) {
        let mut out = [0u8; 8];
        self.put_le(&mut out, 0);
        assert(out@ =~= self.le_bytes());
        out
    }

    fn write_bytes(&mut self, bytes: &[u8; 8]) {
        *self = <u64 as Lane>::get_le(bytes, 0);
        assert(bytes@.subrange(0, 8) =~= bytes@);
    }
}

impl Unaligned<8> for i64 {
    open spec fn mem_bytes(&self) -> Seq<u8> {
        self.le_bytes()
    }

    proof fn lemma_width(&self) {
    }

    fn read_bytes(&self) -> (r: [u8; 8]) {
        let mut out = [0u8; 8];
        self.put_le(&mut out, 0);
        assert(out@ =~= self.le_bytes());
        out
    }

    fn write_bytes(&mut self, bytes: &[u8; 8]) {
        *self = <i64 as Lane>::get_le(bytes, 0);
        assert(bytes@.subrange(0, 8) =~= bytes@);
    }
}

// 128-bit types

impl Sealed for [u8; 16] {}

impl Unaligned<16> for [u8; 16] {
    open spec fn mem_bytes(&self) -> Seq<u8> {
        lanes_le(self@)
    }

    proof fn lemma_width(&self) {
    }

    fn read_bytes(&self) -> (r: [u8; 16]) {
        encode_lanes(self)
    }

    fn write_bytes(&mut self, bytes: &[u8; 16]) {
        decode_lanes(self, bytes)
    }
}

impl Sealed for [i8; 16] {}

impl Unaligned<16> for [i8; 16] {
    open spec fn mem_bytes(&self) -> Seq<u8> {
        lanes_le(self@)
    }

    proof fn lemma_width(&self) {
    }

    fn read_bytes(&self) -> (r: [u8; 16]) {
        encode_lanes(self)
    }

    fn write_bytes(&mut self, bytes: &[u8; 16]) {
        decode_lanes(self, bytes)
    }
}

impl Sealed for [u16; 8] {}

impl Unaligned<16> for [u16; 8] {
    open spec fn mem_bytes(&self) -> Seq<u8> {
        lanes_le(self@)
    }

    proof fn lemma_width(&self) {
    }

    fn read_bytes(&self) -> (r: [u8; 16]) {
        encode_lanes(self)
    }

    fn write_bytes(&mut self, bytes: &[u8; 16]) {
        decode_lanes(self, bytes)
    }
}

impl Sealed for [i16; 8] {}

impl Unaligned<16> for [i16; 8] {
    open spec fn mem_bytes(&self) -> Seq<u8> {
        lanes_le(self@)
    }

    proof fn lemma_width(&self) {
    }

    fn read_bytes(&self) -> (r: [u8; 16]) {
        encode_lanes(self)
    }

    fn write_bytes(&mut self, bytes: &[u8; 16]) {
        decode_lanes(self, bytes)
    }
}

impl Sealed for [u32; 4] {}

impl Unaligned<16> for [u32; 4] {
    open spec fn mem_bytes(&self) -> Seq<u8> {
        lanes_le(self@)
    }

    proof fn lemma_width(&self) {
    }

    fn read_bytes(&self) -> (r: [u8; 16]) {
        encode_lanes(self)
    }

    fn write_bytes(&mut self, bytes: &[u8; 16]) {
        decode_lanes(self, bytes)
    }
}

impl Sealed for [i32; 4] {}

impl Unaligned<16> for [i32; 4] {
    open spec fn mem_bytes(&self) -> Seq<u8> {
        lanes_le(self@)
    }

    proof fn lemma_width(&self) {
    }

    fn read_bytes(&self) -> (r: [u8; 16]) {
        encode_lanes(self)
    }

    fn write_bytes(&mut self, bytes: &[u8; 16]) {
        decode_lanes(self, bytes)
    }
}

impl Sealed for [u64; 2] {}

impl Unaligned<16> for [u64; 2] {
    open spec fn mem_bytes(&self) -> Seq<u8> {
        lanes_le(self@)
    }

    proof fn lemma_width(&self) {
    }

    fn read_bytes(&self) -> (r: [u8; 16]) {
        encode_lanes(self)
    }

    fn write_bytes(&mut self, bytes: &[u8; 16]) {
        decode_lanes(self, bytes)
    }
}

impl Sealed for [i64; 2] {}

impl Unaligned<16> for [i64; 2] {
    open spec fn mem_bytes(&self) -> Seq<u8> {
        lanes_le(self@)
    }

    proof fn lemma_width(&self) {
    }

    fn read_bytes(&self) -> (r: [u8; 16]) {
        encode_lanes(self)
    }

    fn write_bytes(&mut self, bytes: &[u8; 16]) {
        decode_lanes(self, bytes)
    }
}

// 256-bit types

impl Sealed for [u8; 32] {}

impl Unaligned<32> for [u8; 32] {
    open spec fn mem_bytes(&self) -> Seq<u8> {
        lanes_le(self@)
    }

    proof fn lemma_width(&self) {
    }

    fn read_bytes(&self) -> (r: [u8; 32]) {
        encode_lanes(self)
    }

    fn write_bytes(&mut self, bytes: &[u8; 32]) {
        decode_lanes(self, bytes)
    }
}

impl Sealed for [i8; 32] {}

impl Unaligned<32> for [i8; 32] {
    open spec fn mem_bytes(&self) -> Seq<u8> {
        lanes_le(self@)
    }

    proof fn lemma_width(&self) {
    }

    fn read_bytes(&self) -> (r: [u8; 32]) {
        encode_lanes(self)
    }

    fn write_bytes(&mut self, bytes: &[u8; 32]) {
        decode_lanes(self, bytes)
    }
}

impl Sealed for [u16; 16] {}

impl Unaligned<32> for [u16; 16] {
    open spec fn mem_bytes(&self) -> Seq<u8> {
        lanes_le(self@)
    }

    proof fn lemma_width(&self) {
    }

    fn read_bytes(&self) -> (r: [u8; 32]) {
        encode_lanes(self)
    }

    fn write_bytes(&mut self, bytes: &[u8; 32]) {
        decode_lanes(self, bytes)
    }
}

impl Sealed for [i16; 16] {}

impl Unaligned<32> for [i16; 16] {
    open spec fn mem_bytes(&self) -> Seq<u8> {
        lanes_le(self@)
    }

    proof fn lemma_width(&self) {
    }

    fn read_bytes(&self) -> (r: [u8; 32]) {
        encode_lanes(self)
    }

    fn write_bytes(&mut self, bytes: &[u8; 32]) {
        decode_lanes(self, bytes)
    }
}

impl Sealed for [u32; 8] {}

impl Unaligned<32> for [u32; 8] {
    open spec fn mem_bytes(&self) -> Seq<u8> {
        lanes_le(self@)
    }

    proof fn lemma_width(&self) {
    }

    fn read_bytes(&self) -> (r: [u8; 32]) {
        encode_lanes(self)
    }

    fn write_bytes(&mut self, bytes: &[u8; 32]) {
        decode_lanes(self, bytes)
    }
}

impl Sealed for [i32; 8] {}

impl Unaligned<32> for [i32; 8] {
    open spec fn mem_bytes(&self) -> Seq<u8> {
        lanes_le(self@)
    }

    proof fn lemma_width(&self) {
    }

    fn read_bytes(&self) -> (r: [u8; 32]) {
        encode_lanes(self)
    }

    fn write_bytes(&mut self, bytes: &[u8; 32]) {
        decode_lanes(self, bytes)
    }
}

impl Sealed for [u64; 4] {}

impl Unaligned<32> for [u64; 4] {
    open spec fn mem_bytes(&self) -> Seq<u8> {
        lanes_le(self@)
    }

    proof fn lemma_width(&self) {
    }

    fn read_bytes(&self) -> (r: [u8; 32]) {
        encode_lanes(self)
    }

    fn write_bytes(&mut self, bytes: &[u8; 32]) {
        decode_lanes(self, bytes)
    }
}

impl Sealed for [i64; 4] {}

impl Unaligned<32> for [i64; 4] {
    open spec fn mem_bytes(&self) -> Seq<u8> {
        lanes_le(self@)
    }

    proof fn lemma_width(&self) {
    }

    fn read_bytes(&self) -> (r: [u8; 32]) {
        encode_lanes(self)
    }

    fn write_bytes(&mut self, bytes: &[u8; 32]) {
        decode_lanes(self, bytes)
    }
}

// 512-bit types

impl Sealed for [u8; 64] {}

impl Unaligned<64> for [u8; 64] {
    open spec fn mem_bytes(&self) -> Seq<u8> {
        lanes_le(self@)
    }

    proof fn lemma_width(&self) {
    }

    fn read_bytes(&self) -> (r: [u8; 64]) {
        encode_lanes(self)
    }

    fn write_bytes(&mut self, bytes: &[u8; 64]) {
        decode_lanes(self, bytes)
    }
}

impl Sealed for [i8; 64] {}

impl Unaligned<64> for [i8; 64] {
    open spec fn mem_bytes(&self) -> Seq<u8> {
        lanes_le(self@)
    }

    proof fn lemma_width(&self) {
    }

    fn read_bytes(&self) -> (r: [u8; 64]) {
        encode_lanes(self)
    }

    fn write_bytes(&mut self, bytes: &[u8; 64]) {
        decode_lanes(self, bytes)
    }
}

impl Sealed for [u16; 32] {}

impl Unaligned<64> for [u16; 32] {
    open spec fn mem_bytes(&self) -> Seq<u8> {
        lanes_le(self@)
    }

    proof fn lemma_width(&self) {
    }

    fn read_bytes(&self) -> (r: [u8; 64]) {
        encode_lanes(self)
    }

    fn write_bytes(&mut self, bytes: &[u8; 64]) {
        decode_lanes(self, bytes)
    }
}

impl Sealed for [i16; 32] {}

impl Unaligned<64> for [i16; 32] {
    open spec fn mem_bytes(&self) -> Seq<u8> {
        lanes_le(self@)
    }

    proof fn lemma_width(&self) {
    }

    fn read_bytes(&self) -> (r: [u8; 64]) {
        encode_lanes(self)
    }

    fn write_bytes(&mut self, bytes: &[u8; 64]) {
        decode_lanes(self, bytes)
    }
}

impl Sealed for [u32; 16] {}

impl Unaligned<64> for [u32; 16] {
    open spec fn mem_bytes(&self) -> Seq<u8> {
        lanes_le(self@)
    }

    proof fn lemma_width(&self) {
    }

    fn read_bytes(&self) -> (r: [u8; 64]) {
        encode_lanes(self)
    }

    fn write_bytes(&mut self, bytes: &[u8; 64]) {
        decode_lanes(self, bytes)
    }
}

impl Sealed for [i32; 16] {}

impl Unaligned<64> for [i32; 16] {
    open spec fn mem_bytes(&self) -> Seq<u8> {
        lanes_le(self@)
    }

    proof fn lemma_width(&self) {
    }

    fn read_bytes(&self) -> (r: [u8; 64]) {
        encode_lanes(self)
    }

    fn write_bytes(&mut self, bytes: &[u8; 64]) {
        decode_lanes(self, bytes)
    }
}

impl Sealed for [u64; 8] {}

impl Unaligned<64> for [u64; 8] {
    open spec fn mem_bytes(&self) -> Seq<u8> {
        lanes_le(self@)
    }

    proof fn lemma_width(&self) {
    }

    fn read_bytes(&self) -> (r: [u8; 64]) {
        encode_lanes(self)
    }

    fn write_bytes(&mut self, bytes: &[u8; 64]) {
        decode_lanes(self, bytes)
    }
}

impl Sealed for [i64; 8] {}

impl Unaligned<64> for [i64; 8] {
    open spec fn mem_bytes(&self) -> Seq<u8> {
        lanes_le(self@)
    }

    proof fn lemma_width(&self) {
    }

    fn read_bytes(&self) -> (r: [u8; 64]) {
        encode_lanes(self)
    }

    fn write_bytes(&mut self, bytes: &[u8; 64]) {
        decode_lanes(self, bytes)
    }
}

} // verus!
