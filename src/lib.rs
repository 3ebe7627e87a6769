//! A validated, zero-copy, immutable UTF-8 text value stored in a shared,
//! reference-counted byte buffer.
use vstd::prelude::*;

pub mod buffer;
pub mod chars;
pub mod laws;
pub mod validate;

verus! {

} // verus!
