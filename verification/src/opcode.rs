//! The encoding of instructions as field values, by which tables check that
//! they speak of the same instruction.

use vstd::prelude::*;

verus! {

/// The bit at which the class tag of an encoded opcode starts.
pub const OPCODE_CLASS_SHIFT: u32 = 96;

/// The bit at which the first argument of an encoded opcode starts.
pub const OPCODE_ARG0_SHIFT: u32 = 80;

/// The families of instructions.
#[derive(Clone, Copy, Debug, PartialEq, Eq)]
pub enum OpcodeClass {
    LocalGet,
    LocalSet,
    LocalTee,
    GlobalGet,
    GlobalSet,
    Const,
    Drop,
    Select,
    Return,
    Bin,
    Unary,
    BinShift,
    BinBit,
    Test,
    Rel,
    Br,
    BrIf,
    BrIfEqz,
    BrTable,
    Unreachable,
    Call,
    CallHost,
    CallIndirect,
    Load,
    Store,
    MemorySize,
    MemoryGrow,
    Conversion,
}

impl OpcodeClass {
    /// The tag of the family: its place in the list, counted from 1.
    pub open spec fn tag_of(self) -> nat {
        match self {
            OpcodeClass::LocalGet => 1,
            OpcodeClass::LocalSet => 2,
            OpcodeClass::LocalTee => 3,
            OpcodeClass::GlobalGet => 4,
            OpcodeClass::GlobalSet => 5,
            OpcodeClass::Const => 6,
            OpcodeClass::Drop => 7,
            OpcodeClass::Select => 8,
            OpcodeClass::Return => 9,
            OpcodeClass::Bin => 10,
            OpcodeClass::Unary => 11,
            OpcodeClass::BinShift => 12,
            OpcodeClass::BinBit => 13,
            OpcodeClass::Test => 14,
            OpcodeClass::Rel => 15,
            OpcodeClass::Br => 16,
            OpcodeClass::BrIf => 17,
            OpcodeClass::BrIfEqz => 18,
            OpcodeClass::BrTable => 19,
            OpcodeClass::Unreachable => 20,
            OpcodeClass::Call => 21,
            OpcodeClass::CallHost => 22,
            OpcodeClass::CallIndirect => 23,
            OpcodeClass::Load => 24,
            OpcodeClass::Store => 25,
            OpcodeClass::MemorySize => 26,
            OpcodeClass::MemoryGrow => 27,
            OpcodeClass::Conversion => 28,
        }
    }

    /// The tag of the family.
    pub fn tag(self) -> (t: u64)
        ensures
            t == self.tag_of(),
    {
        match self {
            OpcodeClass::LocalGet => 1,
            OpcodeClass::LocalSet => 2,
            OpcodeClass::LocalTee => 3,
            OpcodeClass::GlobalGet => 4,
            OpcodeClass::GlobalSet => 5,
            OpcodeClass::Const => 6,
            OpcodeClass::Drop => 7,
            OpcodeClass::Select => 8,
            OpcodeClass::Return => 9,
            OpcodeClass::Bin => 10,
            OpcodeClass::Unary => 11,
            OpcodeClass::BinShift => 12,
            OpcodeClass::BinBit => 13,
            OpcodeClass::Test => 14,
            OpcodeClass::Rel => 15,
            OpcodeClass::Br => 16,
            OpcodeClass::BrIf => 17,
            OpcodeClass::BrIfEqz => 18,
            OpcodeClass::BrTable => 19,
            OpcodeClass::Unreachable => 20,
            OpcodeClass::Call => 21,
            OpcodeClass::CallHost => 22,
            OpcodeClass::CallIndirect => 23,
            OpcodeClass::Load => 24,
            OpcodeClass::Store => 25,
            OpcodeClass::MemorySize => 26,
            OpcodeClass::MemoryGrow => 27,
            OpcodeClass::Conversion => 28,
        }
    }
}

/// The three integer conversions between 32-bit and 64-bit integers.
#[derive(Clone, Copy, Debug, PartialEq, Eq)]
pub enum ConversionOp {
    /// Keep the low 32 bits of a 64-bit integer.
    I32WrapI64,
    /// Widen a 32-bit integer to 64 bits, repeating its sign bit.
    I64ExtendI32s,
    /// Widen a 32-bit integer to 64 bits with zeros.
    I64ExtendI32u,
}

impl ConversionOp {
    /// The argument that tells the conversions apart in an encoded opcode.
    pub open spec fn code_of(self) -> nat {
        match self {
            ConversionOp::I32WrapI64 => 0,
            ConversionOp::I64ExtendI32s => 1,
            ConversionOp::I64ExtendI32u => 2,
        }
    }

    /// The argument that tells the conversions apart.
    pub fn code(self) -> (c: u64)
        ensures
            c == self.code_of(),
    {
        match self {
            ConversionOp::I32WrapI64 => 0,
            ConversionOp::I64ExtendI32s => 1,
            ConversionOp::I64ExtendI32u => 2,
        }
    }
}

/// The field value that stands for a conversion: the tag of the conversion
/// family at the class position, plus the conversion's code at the position
/// of the first argument.
pub open spec fn conversion_encoding(op: ConversionOp) -> nat {
    OpcodeClass::Conversion.tag_of() * 0x1_0000_0000_0000_0000_0000_0000 + op.code_of()
        * 0x1_0000_0000_0000_0000_0000
}

/// Encodes a conversion as a field value.
pub fn encode_conversion(op: ConversionOp) -> (r: u128)
    ensures
        r == conversion_encoding(op),
{
    let class: u128 = OpcodeClass::Conversion.tag() as u128;
    let code: u128 = op.code() as u128;
    assert(class << 96 == class * 0x1_0000_0000_0000_0000_0000_0000) by (bit_vector)
        requires
            class < 0x1_0000,
    ;
    assert(code << 80 == code * 0x1_0000_0000_0000_0000_0000) by (bit_vector)
        requires
            code < 0x1_0000,
    ;
    (class << OPCODE_CLASS_SHIFT) + (code << OPCODE_ARG0_SHIFT)
}

/// Different conversions have different encodings.
pub proof fn lemma_encoding_injective(a: ConversionOp, b: ConversionOp)
    requires
        conversion_encoding(a) == conversion_encoding(b),
    ensures
        a == b,
{
}

} // verus!
