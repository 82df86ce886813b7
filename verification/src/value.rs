//! Plain-value model of WebAssembly values.
use vstd::prelude::*;

verus! {

/// The four WebAssembly value types.
#[derive(Clone, Copy, Debug, PartialEq, Eq, Structural)]
pub enum ValueType {
    I32,
    I64,
    F32,
    F64,
}

/// A WebAssembly value. Floating-point values are held by their IEEE 754
/// bit pattern, so that every value is a plain integer.
#[derive(Clone, Copy, Debug, PartialEq, Eq, Structural)]
pub enum RuntimeValue {
    I32(i32),
    I64(i64),
    /// Bit pattern of an `f32`.
    F32(u32),
    /// Bit pattern of an `f64`.
    F64(u64),
}

/// The type of a value.
pub open spec fn type_of(v: RuntimeValue) -> ValueType {
    match v {
        RuntimeValue::I32(_) => ValueType::I32,
        RuntimeValue::I64(_) => ValueType::I64,
        RuntimeValue::F32(_) => ValueType::F32,
        RuntimeValue::F64(_) => ValueType::F64,
    }
}

/// The types of a sequence of values, in order.
pub open spec fn types_of(vs: Seq<RuntimeValue>) -> Seq<ValueType> {
    vs.map_values(|v: RuntimeValue| type_of(v))
}

/// The type of an optional value.
pub open spec fn type_of_option(v: Option<RuntimeValue>) -> Option<ValueType> {
    match v {
        Some(x) => Some(type_of(x)),
        None => None,
    }
}

} // verus!
