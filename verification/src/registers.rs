use vstd::prelude::*;

verus! {

/// A value read from, or to be written to, a register.
///
/// The floating-point variant holds the IEEE-754 bit pattern of an `f64`;
/// single-precision values are promoted to double precision before they
/// reach the library, as the register file stores them that way.
#[derive(Debug, Clone, Copy, PartialEq, Eq)]
pub enum Value {
    U8(u8),
    U16(u16),
    U32(u32),
    U64(u64),
    I8(i8),
    I16(i16),
    I32(i32),
    I64(i64),
    Double(u64),
    Byte64([u8; 8]),
    Byte128([u8; 16]),
}

} // verus!
