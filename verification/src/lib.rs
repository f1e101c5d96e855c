//! Constraint-and-witness module for the integer-conversion instructions of a
//! bytecode virtual machine, over a symbolic constraint table.

pub mod allocator;
pub mod cell;
pub mod constraint_builder;
pub mod etable;
pub mod evaluate;
pub mod expression;
pub mod field;
pub mod op_conversion;
pub mod opcode;
pub mod soundness;
pub mod step;
