//! Non-temporal stores.
//!
//! The hardware writes these around the cache, so other accesses to the same
//! memory must wait for a fence. [`NonTemporalScope::with`] hands out a scope
//! for the time a closure runs; memory that the scope has taken in through
//! [`NonTemporalScope::prepare_write`] stays borrowed for the whole scope, so
//! nothing else can reach it until the scope, and its fence, are over. A store
//! through a [`NonTemporalStoreable`] then has the effect of a plain store.
use core::cell::Cell;
use core::marker::PhantomData;
use vstd::prelude::*;

use crate::x86::{__m128i, __m256i};

verus! {

/// Memory that non-temporal stores may write to, for as long as `'data`.
pub struct NonTemporalStoreable<'data, T> {
    inner: &'data mut T,
}

impl<'data, T> NonTemporalStoreable<'data, T> {
    /// The value that the memory holds.
    pub closed spec fn target(&self) -> T {
        *self.inner
    }
}

/// A scope within which non-temporal stores may be issued.
///
/// The scope's lifetime cannot be shortened: memory taken in stays borrowed
/// until the scope ends.
pub struct NonTemporalScope<'lt> {
    invariant: PhantomData<Cell<&'lt ()>>,
}

impl<'data> NonTemporalScope<'data> {
    /// Takes in writable memory, so that non-temporal stores can be issued to
    /// it for the rest of the scope.
    pub fn prepare_write<T>(&self, inner: &'data mut T) -> (r: NonTemporalStoreable<'data, T>)
        ensures
            r.target() == *old(inner),
    {
        NonTemporalStoreable { inner }
    }

    /// Runs `inner` with a scope for non-temporal stores and returns what it
    /// returns.
    pub fn with<R>(inner: impl FnOnce(NonTemporalScope<'data>) -> R) -> (r: R)
        requires
            forall|s: NonTemporalScope<'data>| call_requires(inner, (s,)),
        ensures
            exists|s: NonTemporalScope<'data>| call_ensures(inner, (s,), r),
    {
        let scope = NonTemporalScope { invariant: PhantomData };
        inner(scope)
    }
}

/// Stores a 256-bit register to memory with a non-temporal hint.
pub fn _mm256_stream_si256(addr: &mut NonTemporalStoreable<'_, __m256i>, v: __m256i)
    ensures
        final(addr).target() == v,
{
    *addr.inner = v;
}

/// Stores a 256-bit register to memory with a non-temporal hint.
pub fn _mm256_stream_store_256i(addr: &mut NonTemporalStoreable<'_, __m256i>, v: __m256i)
    ensures
        final(addr).target() == v,
{
    _mm256_stream_si256(addr, v)
}

/// Stores a 128-bit register to memory with a non-temporal hint.
pub fn _mm_stream_si128(addr: &mut NonTemporalStoreable<'_, __m128i>, v: __m128i)
    ensures
        final(addr).target() == v,
{
    *addr.inner = v;
}

/// Stores a 32-bit integer to memory with a non-temporal hint.
pub fn _mm_stream_si32(addr: &mut NonTemporalStoreable<'_, i32>, v: i32)
    ensures
        final(addr).target() == v,
{
    *addr.inner = v;
}

} // verus!
