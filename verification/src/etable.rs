//! What the event table shares with its opcode modules, and what it asks of
//! each of them.

use crate::allocator::EventTableCellAllocator;
use crate::cell::{AllocatedCommonRangeCell, Context};
use crate::constraint_builder::ConstraintBuilder;
use crate::expression::Expression;
use crate::step::EventTableEntry;
use vstd::prelude::*;

verus! {

/// The cells of the event table that hold, for each row, the execution id of
/// the instruction and the stack pointer before it runs.
#[derive(Clone, Copy, Debug, PartialEq, Eq)]
pub struct EventTableCommonConfig {
    pub eid_cell: AllocatedCommonRangeCell,
    pub sp_cell: AllocatedCommonRangeCell,
}

/// Why a witness could not be assigned.
#[derive(Clone, Copy, Debug, PartialEq, Eq)]
pub enum Error {
    /// The record is of an instruction family other than the module's.
    UnexpectedStep,
}

/// The module of one instruction family, once configured.
pub trait EventTableOpcodeConfig {
    /// The record is one of the module's instruction family.
    spec fn accepts(&self, entry: EventTableEntry) -> bool;

    /// The polynomial that takes, on a row of the module, the encoding of
    /// the instruction of that row.
    fn opcode(&self) -> Expression;

    /// Writes the witness of one executed instruction into the row. It
    /// fails on the records of other instruction families, and only on
    /// them, and then leaves the row as it was.
    fn assign(&self, ctx: &mut Context, entry: &EventTableEntry) -> (r: Result<(), Error>)
        ensures
            r is Ok <==> self.accepts(*entry),
            r is Err ==> r == Err::<(), Error>(Error::UnexpectedStep) && final(ctx)@ == old(ctx)@,
    ;

    /// The polynomial that counts the memory accesses of a row of the
    /// module that write, where the module has any.
    fn mops(&self) -> Option<Expression>;

    /// The number of memory accesses of the instruction that write.
    fn memory_writing_ops(&self, entry: &EventTableEntry) -> u32;
}

/// The builder of the module of one instruction family.
pub trait EventTableOpcodeConfigBuilder {
    type Config: EventTableOpcodeConfig;

    /// Allocates the cells of the module and registers its constraints and
    /// lookups, behind those that are there.
    fn configure(
        common_config: &EventTableCommonConfig,
        allocator: &mut EventTableCellAllocator,
        constraint_builder: &mut ConstraintBuilder,
    ) -> (config: Self::Config)
        ensures
            old(allocator).kinds@.is_prefix_of(final(allocator).kinds@),
            old(constraint_builder).gates().is_prefix_of(final(constraint_builder).gates()),
            old(constraint_builder).requests().is_prefix_of(
                final(constraint_builder).requests(),
            ),
    ;
}

} // verus!
