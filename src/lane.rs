//! Little-endian byte images of the primitive integer types.
//!
//! Every architecture this crate describes stores integers least significant
//! byte first, so the bytes a value occupies in memory are its little-endian
//! encoding.
use vstd::prelude::*;

use crate::sealed::Sealed;

verus! {

/// `s` with the bytes from `at` on replaced by `t`.
pub open spec fn splice(s: Seq<u8>, at: int, t: Seq<u8>) -> Seq<u8> {
    s.subrange(0, at) + t + s.subrange(at + t.len(), s.len() as int)
}

/// A primitive integer that can be one lane of a vector register.
pub trait Lane: Copy + Sealed {
    /// Number of bytes the value occupies.
    spec fn width() -> nat;

    /// The bytes of the value, least significant first.
    spec fn le_bytes(self) -> Seq<u8>;

    proof fn lemma_le_bytes(self)
        ensures
            self.le_bytes().len() == Self::width(),
            1 <= Self::width() <= 8,
    ;

    /// The number of bytes the value occupies, at run time.
    fn byte_width() -> (n: usize)
        ensures
            n == Self::width(),
    ;

    /// Writes the value's bytes into `out`, starting at `at`.
    fn put_le<const W: usize>(self, out: &mut [u8; W], at: usize)
        requires
            at + Self::width() <= W,
        ensures
            final(out)@ == splice(old(out)@, at as int, self.le_bytes()),
    ;

    /// Reads the value whose bytes start at `at` in `src`.
    fn get_le<const W: usize>(src: &[u8; W], at: usize) -> (r: Self)
        requires
            at + Self::width() <= W,
        ensures
            r.le_bytes() == src@.subrange(at as int, at + Self::width()),
    ;
}

proof fn lemma_u16_bytes(b0: u8, b1: u8)
    by (bit_vector)
    ensures
        ((b0 as u16) | ((b1 as u16) << 8u16)) as u8 == b0,
        (((b0 as u16) | ((b1 as u16) << 8u16)) >> 8u16) as u8 == b1,
{
}

proof fn lemma_u32_bytes(b0: u8, b1: u8, b2: u8, b3: u8)
    by (bit_vector)
    ensures
        ({
            let v = (b0 as u32) | ((b1 as u32) << 8u32) | ((b2 as u32) << 16u32) | ((b3 as u32)
                << 24u32);
            &&& v as u8 == b0
            &&& (v >> 8u32) as u8 == b1
            &&& (v >> 16u32) as u8 == b2
            &&& (v >> 24u32) as u8 == b3
        }),
{
}

proof fn lemma_u64_bytes(b: Seq<u8>, v: u64)
    requires
        b.len() == 8,
        v == (b[0] as u64) | ((b[1] as u64) << 8u64) | ((b[2] as u64) << 16u64) | ((b[3] as u64)
            << 24u64) | ((b[4] as u64) << 32u64) | ((b[5] as u64) << 40u64) | ((b[6] as u64)
            << 48u64) | ((b[7] as u64) << 56u64),
    ensures
        v as u8 == b[0],
        (v >> 8u64) as u8 == b[1],
        (v >> 16u64) as u8 == b[2],
        (v >> 24u64) as u8 == b[3],
        (v >> 32u64) as u8 == b[4],
        (v >> 40u64) as u8 == b[5],
        (v >> 48u64) as u8 == b[6],
        (v >> 56u64) as u8 == b[7],
{
    let (b0, b1, b2, b3, b4, b5, b6, b7) = (b[0], b[1], b[2], b[3], b[4], b[5], b[6], b[7]);
    assert({
        let w = (b0 as u64) | ((b1 as u64) << 8u64) | ((b2 as u64) << 16u64) | ((b3 as u64)
            << 24u64) | ((b4 as u64) << 32u64) | ((b5 as u64) << 40u64) | ((b6 as u64) << 48u64)
            | ((b7 as u64) << 56u64);
        &&& w as u8 == b0
        &&& (w >> 8u64) as u8 == b1
        &&& (w >> 16u64) as u8 == b2
        &&& (w >> 24u64) as u8 == b3
        &&& (w >> 32u64) as u8 == b4
        &&& (w >> 40u64) as u8 == b5
        &&& (w >> 48u64) as u8 == b6
        &&& (w >> 56u64) as u8 == b7
    }) by (bit_vector);
}

proof fn lemma_signed_casts(a: u8, b: u16, c: u32, d: u64)
    by (bit_vector)
    ensures
        (a as i8) as u8 == a,
        (b as i16) as u16 == b,
        (c as i32) as u32 == c,
        (d as i64) as u64 == d,
{
}

impl Lane for u8 {
    open spec fn width() -> nat {
        1
    }

    open spec fn le_bytes(self) -> Seq<u8> {
        seq![self]
    }

    proof fn lemma_le_bytes(self) {
    }

    fn byte_width() -> (n: usize) {
        1
    }

    fn put_le<const W: usize>(self, out: &mut [u8; W], at: usize) {
        out[at] = self;
        assert(out@ =~= splice(old(out)@, at as int, self.le_bytes()));
    }

    fn get_le<const W: usize>(src: &[u8; W], at: usize) -> (r: u8) {
        let r = src[at];
        assert(r.le_bytes() =~= src@.subrange(at as int, at + 1));
        r
    }
}

impl Lane for u16 {
    open spec fn width() -> nat {
        2
    }

    open spec fn le_bytes(self) -> Seq<u8> {
        seq![self as u8, (self >> 8u16) as u8]
    }

    proof fn lemma_le_bytes(self) {
    }

    fn byte_width() -> (n: usize) {
        2
    }

    fn put_le<const W: usize>(self, out: &mut [u8; W], at: usize) {
        out[at] = self as u8;
        out[at + 1] = (self >> 8u16) as u8;
        assert(out@ =~= splice(old(out)@, at as int, self.le_bytes()));
    }

    fn get_le<const W: usize>(src: &[u8; W], at: usize) -> (r: u16) {
        let (b0, b1) = (src[at], src[at + 1]);
        let r = (b0 as u16) | ((b1 as u16) << 8u16);
        proof {
            lemma_u16_bytes(b0, b1);
        }
        assert(r.le_bytes() =~= src@.subrange(at as int, at + 2));
        r
    }
}

impl Lane for u32 {
    open spec fn width() -> nat {
        4
    }

    open spec fn le_bytes(self) -> Seq<u8> {
        seq![self as u8, (self >> 8u32) as u8, (self >> 16u32) as u8, (self >> 24u32) as u8]
    }

    proof fn lemma_le_bytes(self) {
    }

    fn byte_width() -> (n: usize) {
        4
    }

    fn put_le<const W: usize>(self, out: &mut [u8; W], at: usize) {
        out[at] = self as u8;
        out[at + 1] = (self >> 8u32) as u8;
        out[at + 2] = (self >> 16u32) as u8;
        out[at + 3] = (self >> 24u32) as u8;
        assert(out@ =~= splice(old(out)@, at as int, self.le_bytes()));
    }

    fn get_le<const W: usize>(src: &[u8; W], at: usize) -> (r: u32) {
        let (b0, b1, b2, b3) = (src[at], src[at + 1], src[at + 2], src[at + 3]);
        let r = (b0 as u32) | ((b1 as u32) << 8u32) | ((b2 as u32) << 16u32) | ((b3 as u32)
            << 24u32);
        proof {
            lemma_u32_bytes(b0, b1, b2, b3);
        }
        assert(r.le_bytes() =~= src@.subrange(at as int, at + 4));
        r
    }
}

impl Lane for u64 {
    open spec fn width() -> nat {
        8
    }

    open spec fn le_bytes(self) -> Seq<u8> {
        seq![
            self as u8,
            (self >> 8u64) as u8,
            (self >> 16u64) as u8,
            (self >> 24u64) as u8,
            (self >> 32u64) as u8,
            (self >> 40u64) as u8,
            (self >> 48u64) as u8,
            (self >> 56u64) as u8,
        ]
    }

    proof fn lemma_le_bytes(self) {
    }

    fn byte_width() -> (n: usize) {
        8
    }

    fn put_le<const W: usize>(self, out: &mut [u8; W], at: usize) {
        out[at] = self as u8;
        out[at + 1] = (self >> 8u64) as u8;
        out[at + 2] = (self >> 16u64) as u8;
        out[at + 3] = (self >> 24u64) as u8;
        out[at + 4] = (self >> 32u64) as u8;
        out[at + 5] = (self >> 40u64) as u8;
        out[at + 6] = (self >> 48u64) as u8;
        out[at + 7] = (self >> 56u64) as u8;
        assert(out@ =~= splice(old(out)@, at as int, self.le_bytes()));
    }

    fn get_le<const W: usize>(src: &[u8; W], at: usize) -> (r: u64) {
        let r = (src[at] as u64) | ((src[at + 1] as u64) << 8u64) | ((src[at + 2] as u64)
            << 16u64) | ((src[at + 3] as u64) << 24u64) | ((src[at + 4] as u64) << 32u64) | ((
        src[at + 5] as u64) << 40u64) | ((src[at + 6] as u64) << 48u64) | ((src[at + 7] as u64)
            << 56u64);
        proof {
            lemma_u64_bytes(src@.subrange(at as int, at + 8), r);
        }
        assert(r.le_bytes() =~= src@.subrange(at as int, at + 8));
        r
    }
}

impl Lane for i8 {
    open spec fn width() -> nat {
        1
    }

    open spec fn le_bytes(self) -> Seq<u8> {
        (self as u8).le_bytes()
    }

    proof fn lemma_le_bytes(self) {
    }

    fn byte_width() -> (n: usize) {
        1
    }

    fn put_le<const W: usize>(self, out: &mut [u8; W], at: usize) {
        (self as u8).put_le(out, at);
    }

    fn get_le<const W: usize>(src: &[u8; W], at: usize) -> (r: i8) {
        let u = <u8 as Lane>::get_le(src, at);
        proof {
            lemma_signed_casts(u, 0, 0, 0);
        }
        u as i8
    }
}

impl Lane for i16 {
    open spec fn width() -> nat {
        2
    }

    open spec fn le_bytes(self) -> Seq<u8> {
        (self as u16).le_bytes()
    }

    proof fn lemma_le_bytes(self) {
    }

    fn byte_width() -> (n: usize) {
        2
    }

    fn put_le<const W: usize>(self, out: &mut [u8; W], at: usize) {
        (self as u16).put_le(out, at);
    }

    fn get_le<const W: usize>(src: &[u8; W], at: usize) -> (r: i16) {
        let u = <u16 as Lane>::get_le(src, at);
        proof {
            lemma_signed_casts(0, u, 0, 0);
        }
        u as i16
    }
}

impl Lane for i32 {
    open spec fn width() -> nat {
        4
    }

    open spec fn le_bytes(self) -> Seq<u8> {
        (self as u32).le_bytes()
    }

    proof fn lemma_le_bytes(self) {
    }

    fn byte_width() -> (n: usize) {
        4
    }

    fn put_le<const W: usize>(self, out: &mut [u8; W], at: usize) {
        (self as u32).put_le(out, at);
    }

    fn get_le<const W: usize>(src: &[u8; W], at: usize) -> (r: i32) {
        let u = <u32 as Lane>::get_le(src, at);
        proof {
            lemma_signed_casts(0, 0, u, 0);
        }
        u as i32
    }
}

impl Lane for i64 {
    open spec fn width() -> nat {
        8
    }

    open spec fn le_bytes(self) -> Seq<u8> {
        (self as u64).le_bytes()
    }

    proof fn lemma_le_bytes(self) {
    }

    fn byte_width() -> (n: usize) {
        8
    }

    fn put_le<const W: usize>(self, out: &mut [u8; W], at: usize) {
        (self as u64).put_le(out, at);
    }

    fn get_le<const W: usize>(src: &[u8; W], at: usize) -> (r: i64) {
        let u = <u64 as Lane>::get_le(src, at);
        proof {
            lemma_signed_casts(0, 0, 0, u);
        }
        u as i64
    }
}

} // verus!
