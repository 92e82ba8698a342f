//! Values held by globals.

use vstd::prelude::*;
use crate::module::Type;

verus! {

/// A typed global value, floats kept as their bit patterns.
#[derive(Clone, Copy, Debug, PartialEq, Eq, Structural)]
pub enum WasmVal {
    I32(u32),
    I64(u64),
    F32(u32),
    F64(u64),
}

/// What a global of type `ty` whose initial bits are `bits` holds, if the type
/// is a numeric scalar.
pub open spec fn val_of_bits(ty: Type, bits: u64) -> Option<WasmVal> {
    match ty {
        Type::I32 => Some(WasmVal::I32(bits as u32)),
        Type::I64 => Some(WasmVal::I64(bits)),
        Type::F32 => Some(WasmVal::F32(bits as u32)),
        Type::F64 => Some(WasmVal::F64(bits)),
        _ => None,
    }
}

impl WasmVal {
    /// Decodes initial bits by the declared type; 32-bit types keep the low half.
    pub fn from_bits(ty: Type, bits: u64) -> (r: Option<WasmVal>)
        ensures
            r == val_of_bits(ty, bits),
    {
        match ty {
            Type::I32 => Some(WasmVal::I32(bits as u32)),
            Type::I64 => Some(WasmVal::I64(bits)),
            Type::F32 => Some(WasmVal::F32(bits as u32)),
            Type::F64 => Some(WasmVal::F64(bits)),
            _ => None,
        }
    }
}

} // verus!
