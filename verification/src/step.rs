//! The records of executed instructions that the trace producer hands over.

use crate::opcode::ConversionOp;
use vstd::prelude::*;

verus! {

/// The width of a value on the stack.
#[derive(Clone, Copy, Debug, PartialEq, Eq)]
pub enum VarType {
    I64,
    I32,
}

impl VarType {
    pub open spec fn is_i32_spec(self) -> bool {
        self == VarType::I32
    }

    /// Whether the value is 32 bits wide.
    #[verifier::when_used_as_spec(is_i32_spec)]
    pub fn is_i32(self) -> (r: bool)
        ensures
            r == self.is_i32_spec(),
    {
        match self {
            VarType::I32 => true,
            VarType::I64 => false,
        }
    }
}

/// The kind of memory that an access goes to.
#[derive(Clone, Copy, Debug, PartialEq, Eq)]
pub enum LocationType {
    Stack,
    Heap,
    Global,
}

impl LocationType {
    /// The number that stands for the kind in the memory table.
    pub open spec fn code_of(self) -> nat {
        match self {
            LocationType::Stack => 1,
            LocationType::Heap => 2,
            LocationType::Global => 3,
        }
    }

    /// The number that stands for the kind in the memory table.
    pub fn code(self) -> (c: u64)
        ensures
            c == self.code_of(),
    {
        match self {
            LocationType::Stack => 1,
            LocationType::Heap => 2,
            LocationType::Global => 3,
        }
    }
}

/// The bits of a signed 64-bit integer, read as an unsigned one.
pub open spec fn unsigned64(v: i64) -> nat {
    if v >= 0 {
        v as nat
    } else {
        (v + 0x1_0000_0000_0000_0000) as nat
    }
}

/// The bits of a signed 32-bit integer, read as an unsigned one.
pub open spec fn unsigned32(v: i32) -> nat {
    if v >= 0 {
        v as nat
    } else {
        (v + 0x1_0000_0000) as nat
    }
}

/// What a conversion makes of an operand, by the semantics of the virtual
/// machine, on the bits of operand and result.
pub open spec fn conversion_result(op: ConversionOp, operand: nat) -> nat {
    match op {
        ConversionOp::I32WrapI64 => operand % 0x1_0000_0000,
        ConversionOp::I64ExtendI32u => operand,
        ConversionOp::I64ExtendI32s => if operand >= 0x8000_0000 {
            operand + 0xFFFF_FFFF_0000_0000
        } else {
            operand
        },
    }
}

/// The operands that a conversion takes: 64-bit integers for the wrap,
/// 32-bit integers for the two extensions.
pub open spec fn conversion_takes(op: ConversionOp, operand: nat) -> bool {
    match op {
        ConversionOp::I32WrapI64 => operand < 0x1_0000_0000_0000_0000,
        _ => operand < 0x1_0000_0000,
    }
}

/// The width of the operand of a conversion.
pub open spec fn operand_type(op: ConversionOp) -> VarType {
    match op {
        ConversionOp::I32WrapI64 => VarType::I64,
        _ => VarType::I32,
    }
}

/// The width of the result of a conversion.
pub open spec fn result_type(op: ConversionOp) -> VarType {
    match op {
        ConversionOp::I32WrapI64 => VarType::I32,
        _ => VarType::I64,
    }
}

/// One executed conversion, as the bits of its operand and result.
#[derive(Clone, Copy, Debug, PartialEq, Eq)]
pub struct ConversionStep {
    pub op: ConversionOp,
    pub value: u64,
    pub value_type: VarType,
    pub result: u64,
    pub result_type: VarType,
}

impl ConversionStep {
    /// The record is one that the virtual machine can produce: the operand
    /// is one that the conversion takes, the result is what the conversion
    /// makes of it, and the widths are those of the conversion.
    pub open spec fn genuine(self) -> bool {
        &&& conversion_takes(self.op, self.value as nat)
        &&& self.result as nat == conversion_result(self.op, self.value as nat)
        &&& self.value_type == operand_type(self.op)
        &&& self.result_type == result_type(self.op)
    }
}

/// What one executed instruction did.
#[allow(inconsistent_fields)]
#[derive(Clone, Copy, Debug, PartialEq, Eq)]
pub enum StepInfo {
    Drop,
    I32Const { value: i32 },
    I64Const { value: i64 },
    I32WrapI64 { value: i64, result: i32 },
    I64ExtendI32 { value: i32, result: i64, sign: bool },
}

fn bits64(v: i64) -> (r: u64)
    ensures
        r == unsigned64(v),
{
    if v >= 0 {
        v as u64
    } else {
        let low: u64 = (v + i64::MAX + 1) as u64;
        low + 0x8000_0000_0000_0000
    }
}

fn bits32(v: i32) -> (r: u64)
    ensures
        r == unsigned32(v),
{
    if v >= 0 {
        v as u64
    } else {
        let low: u64 = (v + i32::MAX + 1) as u64;
        low + 0x8000_0000
    }
}

impl StepInfo {
    /// The conversion that the record describes, if it describes one.
    pub open spec fn conversion_of(&self) -> Option<ConversionStep> {
        match *self {
            StepInfo::I32WrapI64 { value, result } => Some(
                ConversionStep {
                    op: ConversionOp::I32WrapI64,
                    value: unsigned64(value) as u64,
                    value_type: VarType::I64,
                    result: unsigned32(result) as u64,
                    result_type: VarType::I32,
                },
            ),
            StepInfo::I64ExtendI32 { value, result, sign } => Some(
                ConversionStep {
                    op: if sign {
                        ConversionOp::I64ExtendI32s
                    } else {
                        ConversionOp::I64ExtendI32u
                    },
                    value: unsigned32(value) as u64,
                    value_type: VarType::I32,
                    result: unsigned64(result) as u64,
                    result_type: VarType::I64,
                },
            ),
            _ => None,
        }
    }

    /// Reads a record of the conversion family as the bits of its operand
    /// and result; `None` for a record of another family.
    #[verifier::when_used_as_spec(conversion_of)]
    pub fn conversion(&self) -> (r: Option<ConversionStep>)
        ensures
            r == self.conversion_of(),
    {
        match self {
            StepInfo::I32WrapI64 { value, result } => Some(
                ConversionStep {
                    op: ConversionOp::I32WrapI64,
                    value: bits64(*value),
                    value_type: VarType::I64,
                    result: bits32(*result),
                    result_type: VarType::I32,
                },
            ),
            StepInfo::I64ExtendI32 { value, result, sign } => Some(
                ConversionStep {
                    op: if *sign {
                        ConversionOp::I64ExtendI32s
                    } else {
                        ConversionOp::I64ExtendI32u
                    },
                    value: bits32(*value),
                    value_type: VarType::I32,
                    result: bits64(*result),
                    result_type: VarType::I64,
                },
            ),
            _ => None,
        }
    }
}

/// One row of the trace: the instruction's execution id, the stack pointer
/// before it ran, and what it did.
#[derive(Clone, Copy, Debug, PartialEq, Eq)]
pub struct EventTableEntry {
    pub eid: u32,
    pub sp: u32,
    pub step_info: StepInfo,
}

} // verus!
