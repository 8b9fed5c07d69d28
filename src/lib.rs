//! Unaligned SIMD loads and stores through ordinary references.
//!
//! Vector load and store instructions read or write a fixed number of bytes
//! at an address that need not be aligned. This crate takes that memory as a
//! reference to a type whose size is exactly that number of bytes, so that no
//! raw pointer is needed.
//!
//! The width-capability traits in [`traits`] mark those types, one trait per
//! width. Each implementation states the bytes a value occupies and proves
//! that there are exactly as many as the width; the traits are sealed, so no
//! other crate can add a type. Every load and store is generic over the trait
//! of its width, and its contract states the bytes it reads or writes.
//! Variants generic over `Cell` types allow loads and stores on overlapping,
//! aliased memory.
//!
//! The registers are held by value as their bytes, lowest first: [`x86`] has
//! the 128-, 256- and 512-bit integer registers, [`wasm32`] the `v128`.
use vstd::prelude::*;

mod sealed;

pub mod lane;
pub mod laws;
pub mod ops;
pub mod traits;
pub mod wasm32;
pub mod x86;

pub use crate::x86 as x86_64;
