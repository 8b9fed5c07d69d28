//! Laws that relate several loads and stores.
use vstd::prelude::*;

use crate::ops::{blend, compressed, expand, slot, zero_extend};
use crate::traits::{
    Is128BitsUnaligned, Is16BitsUnaligned, Is256BitsUnaligned, Is32BitsUnaligned,
    Is512BitsUnaligned, Is64BitsUnaligned, Unaligned,
};
use crate::wasm32::v128;
use crate::x86::{__m128i, __m256i, __m512i};

verus! {

/// A 128-bit store of `a`, then a 128-bit load from the same memory, gives
/// back `a`, whatever the type of the memory and wherever it lies.
pub proof fn lemma_store_load_128<T: Is128BitsUnaligned>(mem: T, a: __m128i, loaded: __m128i)
    requires
        mem.mem_bytes() == a@,
        loaded@ == mem.mem_bytes(),
    ensures
        loaded == a,
{
    assert(loaded.bytes@ =~= a.bytes@);
    assert(loaded.bytes == a.bytes);
}

/// A 256-bit store of `a`, then a 256-bit load from the same memory, gives
/// back `a`.
pub proof fn lemma_store_load_256<T: Is256BitsUnaligned>(mem: T, a: __m256i, loaded: __m256i)
    requires
        mem.mem_bytes() == a@,
        loaded@ == mem.mem_bytes(),
    ensures
        loaded == a,
{
    assert(loaded.bytes@ =~= a.bytes@);
    assert(loaded.bytes == a.bytes);
}

/// A 512-bit store of `a`, then a 512-bit load from the same memory, gives
/// back `a`.
pub proof fn lemma_store_load_512<T: Is512BitsUnaligned>(mem: T, a: __m512i, loaded: __m512i)
    requires
        mem.mem_bytes() == a@,
        loaded@ == mem.mem_bytes(),
    ensures
        loaded == a,
{
    assert(loaded.bytes@ =~= a.bytes@);
    assert(loaded.bytes == a.bytes);
}

/// A `v128` store of `v`, then a `v128` load from the same memory, gives back
/// `v`.
pub proof fn lemma_store_load_v128<T: Is128BitsUnaligned>(mem: T, v: v128, loaded: v128)
    requires
        mem.mem_bytes() == v@,
        loaded@ == mem.mem_bytes(),
    ensures
        loaded == v,
{
    assert(loaded.bytes@ =~= v.bytes@);
    assert(loaded.bytes == v.bytes);
}

/// A narrow store of the low `W` bytes of `a`, then a narrow load of the same
/// width, gives back `a` with every byte above the low `W` cleared.
pub proof fn lemma_store_load_narrow<T: Unaligned<W>, const W: usize>(
    mem: T,
    a: __m128i,
    loaded: __m128i,
)
    requires
        W <= 16,
        mem.mem_bytes() == a@.subrange(0, W as int),
        loaded@ == zero_extend(mem.mem_bytes(), 16),
    ensures
        forall|j: int| 0 <= j < W ==> loaded@[j] == a@[j],
        forall|j: int| W <= j < 16 ==> loaded@[j] == 0,
{
}

/// A load from one place, then a store of the same width to another, leaves
/// the second place holding the bytes of the first, whatever the two types.
pub proof fn lemma_load_store_copies<S: Unaligned<W>, T: Unaligned<W>, const W: usize>(
    src: S,
    loaded: Seq<u8>,
    dst: T,
)
    requires
        loaded == src.mem_bytes(),
        dst.mem_bytes() == loaded,
    ensures
        dst.mem_bytes() == src.mem_bytes(),
{
}

/// A masked store of `a` with mask `k`, then a masked load with the same mask,
/// gives the lanes of `a` that `k` selects and those of `src` elsewhere: the
/// lanes the mask leaves out do not matter, in memory or in the register.
pub proof fn lemma_mask_store_load(old: Seq<u8>, a: Seq<u8>, src: Seq<u8>, k: u64, w: nat)
    requires
        w > 0,
        old.len() == a.len(),
        src.len() == a.len(),
    ensures
        blend(src, blend(old, a, k, w), k, w) == blend(src, a, k, w),
{
    assert(blend(src, blend(old, a, k, w), k, w) =~= blend(src, a, k, w));
}

/// A compress-store of `a` with mask `k`, then an expand-load with the same
/// mask from the same memory, puts every selected lane of `a` back in its
/// place; the other lanes come from `src`.
pub proof fn lemma_compress_expand(
    old: Seq<u8>,
    a: Seq<u8>,
    new: Seq<u8>,
    src: Seq<u8>,
    k: u64,
    w: nat,
)
    requires
        w > 0,
        old.len() == a.len(),
        src.len() == a.len(),
        compressed(new, old, a, k, w),
    ensures
        expand(src, new, k, w) == blend(src, a, k, w),
{
    assert forall|j: int| 0 <= j < a.len() implies #[trigger] expand(src, new, k, w)[j] == blend(
        src,
        a,
        k,
        w,
    )[j] by {
        if crate::ops::lane_selected(k, j / (w as int)) {
            assert(new[slot(k, j, w)] == a[j]);
        }
    }
    assert(expand(src, new, k, w) =~= blend(src, a, k, w));
}

} // verus!
