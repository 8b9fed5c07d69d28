//! The supertrait that keeps the capability traits closed to other crates.
use vstd::prelude::*;

verus! {

/// Implemented only inside this crate, for the types whose byte image the
/// crate has established.
pub trait Sealed {}

impl Sealed for u8 {}

impl Sealed for i8 {}

impl Sealed for u16 {}

impl Sealed for i16 {}

impl Sealed for u32 {}

impl Sealed for i32 {}

impl Sealed for u64 {}

impl Sealed for i64 {}

} // verus!
