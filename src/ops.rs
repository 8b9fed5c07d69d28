//! Lane-wise operations on the byte images of vector registers and memory.
//!
//! A register or a memory operand of `W` bytes is seen as `W / w` lanes of
//! `w` bytes each; byte `j` belongs to lane `j / w`, at offset `j % w`. A mask
//! selects lane `i` when its bit `i` is set.
use vstd::prelude::*;

use crate::lane::splice;

verus! {

/// Whether mask `k` selects lane `i`.
pub open spec fn lane_selected(k: u64, i: int) -> bool {
    0 <= i < 64 && (k >> (i as u64)) & 1u64 == 1u64
}

/// The number of lanes below lane `i` that mask `k` selects.
pub open spec fn rank(k: u64, i: int) -> nat
    decreases i,
{
    if i <= 0 {
        0
    } else {
        rank(k, i - 1) + if lane_selected(k, i - 1) {
            1nat
        } else {
            0nat
        }
    }
}

/// Each byte from `mem` where its lane is selected, from `src` elsewhere.
pub open spec fn blend(src: Seq<u8>, mem: Seq<u8>, k: u64, w: nat) -> Seq<u8> {
    Seq::new(
        src.len(),
        |j: int|
            if lane_selected(k, j / (w as int)) {
                mem[j]
            } else {
                src[j]
            },
    )
}

/// The selected lanes, in order, take the consecutive lanes of `mem` from its
/// start; the other lanes are those of `src`.
pub open spec fn expand(src: Seq<u8>, mem: Seq<u8>, k: u64, w: nat) -> Seq<u8> {
    Seq::new(
        src.len(),
        |j: int|
            if lane_selected(k, j / (w as int)) {
                mem[rank(k, j / (w as int)) * w + j % (w as int)]
            } else {
                src[j]
            },
    )
}

/// The byte that byte `x` of a compress-store lands on: offset `x % w` of
/// lane `rank(k, x / w)`.
pub open spec fn slot(k: u64, x: int, w: nat) -> int {
    rank(k, x / (w as int)) * w + x % (w as int)
}

/// `new` is `old` after the selected lanes of `a` were written, in order, to
/// the consecutive lanes from its start: selected lane `i` lands in lane
/// `rank(k, i)`, and the bytes after the last lane written keep their value.
pub open spec fn compressed(new: Seq<u8>, old: Seq<u8>, a: Seq<u8>, k: u64, w: nat) -> bool {
    &&& new.len() == old.len()
    &&& forall|j: int|
        0 <= j < a.len() && lane_selected(k, j / (w as int)) ==> new[#[trigger] slot(k, j, w)]
            == a[j]
    &&& forall|x: int| rank(k, (a.len() / w) as int) * w <= x < new.len() ==> new[x] == old[x]
}

/// `mem` followed by zero bytes, `n` bytes in all.
pub open spec fn zero_extend(mem: Seq<u8>, n: nat) -> Seq<u8> {
    Seq::new(
        n,
        |j: int|
            if j < mem.len() {
                mem[j]
            } else {
                0u8
            },
    )
}

/// `mem` repeated to fill `n` bytes.
pub open spec fn splat(mem: Seq<u8>, n: nat) -> Seq<u8> {
    Seq::new(n, |j: int| mem[j % (mem.len() as int)])
}

/// Lanes of `from` bytes in `mem`, each widened to `to` bytes: the new high
/// bytes copy the sign bit of the lane where `signed`, and are zero elsewhere.
pub open spec fn extend(mem: Seq<u8>, from: nat, to: nat, signed: bool, n: nat) -> Seq<u8> {
    Seq::new(
        n,
        |j: int|
            {
                let i = j / (to as int);
                let o = j % (to as int);
                if o < from {
                    mem[i * from + o]
                } else if signed && mem[i * from + from - 1] >= 128 {
                    0xffu8
                } else {
                    0u8
                }
            },
    )
}

/// How a 16-bit lane is narrowed to 8 bits.
#[derive(Clone, Copy, Debug, PartialEq, Eq)]
pub enum Narrowing {
    /// Keep the low byte.
    Truncate,
    /// Read the lane as signed and clamp it to `i8`.
    SignedSaturate,
    /// Read the lane as unsigned and clamp it to `u8`.
    UnsignedSaturate,
}

/// The unsigned value of 16-bit lane `i` of `a`.
pub open spec fn word(a: Seq<u8>, i: int) -> int {
    a[2 * i] + 256 * a[2 * i + 1]
}

/// The signed value of 16-bit lane `i` of `a`.
pub open spec fn signed_word(a: Seq<u8>, i: int) -> int {
    if word(a, i) >= 0x8000 {
        word(a, i) - 0x10000
    } else {
        word(a, i)
    }
}

/// The byte that 16-bit lane `i` of `a` narrows to.
pub open spec fn narrowed(a: Seq<u8>, i: int, how: Narrowing) -> u8 {
    match how {
        Narrowing::Truncate => a[2 * i],
        Narrowing::SignedSaturate => if signed_word(a, i) > 127 {
            0x7fu8
        } else if signed_word(a, i) < -128 {
            0x80u8
        } else {
            (signed_word(a, i) % 256) as u8
        },
        Narrowing::UnsignedSaturate => if word(a, i) > 255 {
            0xffu8
        } else {
            word(a, i) as u8
        },
    }
}

/// `old` with byte `i` replaced by lane `i` of `a`, narrowed, wherever `k`
/// selects lane `i`.
pub open spec fn narrow_into(old: Seq<u8>, a: Seq<u8>, k: u64, how: Narrowing) -> Seq<u8> {
    Seq::new(
        old.len(),
        |i: int|
            if lane_selected(k, i) {
                narrowed(a, i, how)
            } else {
                old[i]
            },
    )
}

/// Whether mask `k` selects lane `i`.
pub fn mask_bit(k: u64, i: usize) -> (r: bool)
    ensures
        r == lane_selected(k, i as int),
{
    if i < 64 {
        (k >> (i as u64)) & 1u64 == 1u64
    } else {
        false
    }
}

/// Byte `o` of lane `i` is byte `i * w + o`.
pub(crate) proof fn lemma_lane_position(i: int, o: int, w: int)
    requires
        0 <= o < w,
    ensures
        (i * w + o) / w == i,
        (i * w + o) % w == o,
{
    vstd::arithmetic::div_mod::lemma_fundamental_div_mod_converse(i * w + o, w, i, o);
}

/// The lane after lane `i` starts `w` bytes later.
pub(crate) proof fn lemma_next_lane(i: int, w: int)
    ensures
        (i + 1) * w == i * w + w,
{
    vstd::arithmetic::mul::lemma_mul_is_distributive_add_other_way(w, i, 1);
}

/// Copies `n` bytes of `src`, from `from` on, into `dst` at `at`.
pub fn copy_bytes<const A: usize, const B: usize>(
    dst: &mut [u8; B],
    at: usize,
    src: &[u8; A],
    from: usize,
    n: usize,
)
    requires
        at + n <= B,
        from + n <= A,
    ensures
        final(dst)@ == splice(old(dst)@, at as int, src@.subrange(from as int, from + n)),
{
    let mut x: usize = 0;
    while x < n
        invariant
            at + n <= B,
            from + n <= A,
            x <= n,
            dst@.len() == B,
            forall|y: int| 0 <= y < B && !(at <= y < at + x) ==> dst@[y] == old(dst)@[y],
            forall|y: int| at <= y < at + x ==> dst@[y] == src@[y - at + from],
        decreases n - x,
    {
        dst[at + x] = src[from + x];
        x = x + 1;
    }
    assert(dst@ =~= splice(old(dst)@, at as int, src@.subrange(from as int, from + n)));
}

/// The first `A` bytes are `mem`, the rest zero.
pub fn zero_extend_bytes<const A: usize, const B: usize>(mem: &[u8; A]) -> (r: [u8; B])
    requires
        A <= B,
    ensures
        r@ == zero_extend(mem@, B as nat),
{
    let mut out = [0u8; B];
    copy_bytes(&mut out, 0, mem, 0, A);
    assert(out@ =~= zero_extend(mem@, B as nat));
    out
}

/// Each byte from `mem` where its lane of `w` bytes is selected by `k`, from
/// `src` elsewhere.
pub fn blend_bytes<const W: usize>(src: &[u8; W], mem: &[u8; W], k: u64, w: usize) -> (r: [u8;
    W])
    requires
        w > 0,
    ensures
        r@ == blend(src@, mem@, k, w as nat),
{
    let mut out = *src;
    let mut j: usize = 0;
    while j < W
        invariant
            w > 0,
            j <= W,
            out@.len() == W,
            forall|x: int| 0 <= x < j ==> out@[x] == blend(src@, mem@, k, w as nat)[x],
            forall|x: int| j <= x < W ==> out@[x] == src@[x],
        decreases W - j,
    {
        if mask_bit(k, j / w) {
            out[j] = mem[j];
        }
        j = j + 1;
    }
    assert(out@ =~= blend(src@, mem@, k, w as nat));
    out
}

/// Expand-load: the lanes of `w` bytes that `k` selects take, in order, the
/// consecutive lanes at the start of `mem`; the other lanes keep `src`.
pub fn expand_bytes<const W: usize>(src: &[u8; W], mem: &[u8; W], k: u64, w: usize) -> (r: [u8;
    W])
    requires
        w > 0,
    ensures
        r@ == expand(src@, mem@, k, w as nat),
{
    let mut out = *src;
    let mut j: usize = 0;
    let mut i: usize = 0;
    let mut o: usize = 0;
    let mut base: usize = 0;
    let mut rbase: usize = 0;
    while j < W
        invariant
            w > 0,
            j <= W,
            j == base + o,
            o < w,
            base == i * w,
            i <= base,
            rbase == rank(k, i as int) * w,
            rbase <= base,
            out@.len() == W,
            forall|x: int| 0 <= x < j ==> out@[x] == expand(src@, mem@, k, w as nat)[x],
            forall|x: int| j <= x < W ==> out@[x] == src@[x],
        decreases W - j,
    {
        let sel = mask_bit(k, i);
        if sel {
            out[j] = mem[rbase + o];
        }
        proof {
            lemma_lane_position(i as int, o as int, w as int);
            lemma_next_lane(i as int, w as int);
            lemma_next_lane(rank(k, i as int) as int, w as int);
        }
        j = j + 1;
        if o + 1 == w {
            o = 0;
            i = i + 1;
            base = base + w;
            if sel {
                rbase = rbase + w;
            }
        } else {
            o = o + 1;
        }
    }
    assert(out@ =~= expand(src@, mem@, k, w as nat));
    out
}

/// Compress-store: the lanes of `w` bytes of `a` that `k` selects are written,
/// in order, to the consecutive lanes at the start of `mem`; the bytes after
/// them are left as they were.
pub fn compress_bytes<const W: usize>(mem: &mut [u8; W], a: &[u8; W], k: u64, w: usize)
    requires
        w > 0,
        W % w == 0,
    ensures
        compressed(final(mem)@, old(mem)@, a@, k, w as nat),
{
    let mut j: usize = 0;
    let mut i: usize = 0;
    let mut o: usize = 0;
    let mut base: usize = 0;
    let mut rbase: usize = 0;
    let mut n: usize = 0;
    while j < W
        invariant
            w > 0,
            W % w == 0,
            j <= W,
            j == base + o,
            o < w,
            base == i * w,
            i <= base,
            rbase == rank(k, i as int) * w,
            rbase <= base,
            n == rbase + if lane_selected(k, i as int) {
                o
            } else {
                0
            },
            mem@.len() == W,
            forall|x: int|
                0 <= x < j && lane_selected(k, x / (w as int)) ==> #[trigger] slot(k, x, w as nat)
                    < n,
            forall|x: int|
                0 <= x < j && lane_selected(k, x / (w as int)) ==> mem@[#[trigger] slot(
                    k,
                    x,
                    w as nat,
                )] == a@[x],
            forall|x: int| n <= x < W ==> mem@[x] == old(mem)@[x],
        decreases W - j,
    {
        let sel = mask_bit(k, i);
        proof {
            lemma_lane_position(i as int, o as int, w as int);
            lemma_next_lane(i as int, w as int);
            lemma_next_lane(rank(k, i as int) as int, w as int);
        }
        if sel {
            mem[n] = a[j];
            n = n + 1;
        }
        j = j + 1;
        if o + 1 == w {
            o = 0;
            i = i + 1;
            base = base + w;
            if sel {
                rbase = rbase + w;
            }
        } else {
            o = o + 1;
        }
    }
    proof {
        lemma_lane_position(i as int, o as int, w as int);
        vstd::arithmetic::div_mod::lemma_fundamental_div_mod_converse(
            W as int,
            w as int,
            i as int,
            0,
        );
    }
}

/// `mem` repeated to fill the result.
pub fn splat_bytes<const A: usize, const B: usize>(mem: &[u8; A]) -> (r: [u8; B])
    requires
        A > 0,
    ensures
        r@ == splat(mem@, B as nat),
{
    let mut out = [0u8; B];
    let mut j: usize = 0;
    while j < B
        invariant
            A > 0,
            j <= B,
            out@.len() == B,
            forall|x: int| 0 <= x < j ==> out@[x] == splat(mem@, B as nat)[x],
        decreases B - j,
    {
        out[j] = mem[j % A];
        j = j + 1;
    }
    assert(out@ =~= splat(mem@, B as nat));
    out
}

/// The first `n` lanes of `from` bytes in `mem`, each widened to `to` bytes,
/// with copies of its sign bit where `signed` and with zeros elsewhere.
pub fn extend_bytes<const A: usize, const B: usize>(
    mem: &[u8; A],
    n: usize,
    from: usize,
    to: usize,
    signed: bool,
) -> (r: [u8; B])
    requires
        0 < from < to,
        n * to == B,
        n * from <= A,
    ensures
        r@ == extend(mem@, from as nat, to as nat, signed, B as nat),
{
    let mut out = [0u8; B];
    let mut j: usize = 0;
    let mut i: usize = 0;
    let mut o: usize = 0;
    let mut base: usize = 0;
    let mut sb: usize = 0;
    while j < B
        invariant
            0 < from < to,
            n * to == B,
            n * from <= A,
            j <= B,
            j == base + o,
            o < to,
            base == i * to,
            sb == i * from,
            out@.len() == B,
            forall|x: int|
                0 <= x < j ==> out@[x] == extend(mem@, from as nat, to as nat, signed, B as nat)[x],
        decreases B - j,
    {
        proof {
            lemma_lane_position(i as int, o as int, to as int);
            lemma_next_lane(i as int, to as int);
            lemma_next_lane(i as int, from as int);
            if i >= n {
                vstd::arithmetic::mul::lemma_mul_inequality(n as int, i as int, to as int);
            }
            vstd::arithmetic::mul::lemma_mul_inequality(i as int + 1, n as int, from as int);
        }
        if o < from {
            out[j] = mem[sb + o];
        } else if signed && mem[sb + from - 1] >= 128 {
            out[j] = 0xffu8;
        } else {
            out[j] = 0u8;
        }
        j = j + 1;
        if o + 1 == to {
            o = 0;
            i = i + 1;
            base = base + to;
            sb = sb + from;
        } else {
            o = o + 1;
        }
    }
    assert(out@ =~= extend(mem@, from as nat, to as nat, signed, B as nat));
    out
}

/// The byte that 16-bit lane `i` of `a` narrows to.
fn narrow_lane<const A: usize>(a: &[u8; A], i: usize, how: Narrowing) -> (r: u8)
    requires
        2 * i + 1 < A,
    ensures
        r == narrowed(a@, i as int, how),
{
    let word: u32 = a[2 * i] as u32 + 256 * (a[2 * i + 1] as u32);
    match how {
        Narrowing::Truncate => a[2 * i],
        Narrowing::SignedSaturate => {
            let s: i32 = if word >= 0x8000 {
                word as i32 - 0x10000
            } else {
                word as i32
            };
            if s > 127 {
                0x7fu8
            } else if s < -128 {
                0x80u8
            } else if s < 0 {
                proof {
                    vstd::arithmetic::div_mod::lemma_fundamental_div_mod_converse(
                        s as int,
                        256,
                        -1,
                        s + 256,
                    );
                }
                (s + 256) as u8
            } else {
                s as u8
            }
        },
        Narrowing::UnsignedSaturate => if word > 255 {
            0xffu8
        } else {
            word as u8
        },
    }
}

/// Writes lane `i` of `a`, narrowed, to byte `i` of `mem` wherever `k`
/// selects lane `i`.
pub fn narrow_bytes<const M: usize, const A: usize>(
    mem: &mut [u8; M],
    a: &[u8; A],
    k: u64,
    how: Narrowing,
)
    requires
        2 * M <= A,
    ensures
        final(mem)@ == narrow_into(old(mem)@, a@, k, how),
{
    let mut i: usize = 0;
    while i < M
        invariant
            2 * M <= A,
            i <= M,
            mem@.len() == M,
            forall|x: int| 0 <= x < i ==> mem@[x] == narrow_into(old(mem)@, a@, k, how)[x],
            forall|x: int| i <= x < M ==> mem@[x] == old(mem)@[x],
        decreases M - i,
    {
        if mask_bit(k, i) {
            mem[i] = narrow_lane(a, i, how);
        }
        i = i + 1;
    }
    assert(mem@ =~= narrow_into(old(mem)@, a@, k, how));
}

} // verus!
