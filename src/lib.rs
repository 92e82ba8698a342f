//! A concrete, addressable snapshot of a WebAssembly module's initial state,
//! and discovery of the hook functions that a partial evaluator relies on.

use vstd::prelude::*;

pub mod module;
pub mod value;
pub mod memory;
pub mod image;
pub mod intrinsics;

verus! {

} // verus!
