//! The allocator of typed cells.

use crate::cell::{
    AllocatedBitCell, AllocatedCommonRangeCell, AllocatedU16Cell, AllocatedU64Cell,
    AllocatedUnlimitedCell,
};
use crate::constraint_builder::{ConstraintBuilder, Lookup, MemoryAccess, MemoryTableLookup};
use crate::expression::{read, Cell, Expression};
use vstd::prelude::*;

verus! {

/// What the table itself constrains a cell to hold.
#[derive(Clone, Copy, Debug, PartialEq, Eq)]
pub enum CellKind {
    /// Any field element.
    Unlimited,
    /// 0 or 1.
    Bit,
    /// Less than the bound.
    Range(u64),
    /// The weighted sum of the four cells that follow, which are its 16-bit
    /// limbs, least significant first.
    U64,
}

/// The bound of a 16-bit range cell.
pub const U16_BOUND: u64 = 0x1_0000;

impl CellKind {
    /// The row holds at `index` what a cell of this kind may hold.
    pub open spec fn holds(self, row: Seq<nat>, index: int) -> bool {
        match self {
            CellKind::Unlimited => true,
            CellKind::Bit => read(row, index) <= 1,
            CellKind::Range(bound) => read(row, index) < bound,
            CellKind::U64 => read(row, index) == read(row, index + 1) + read(row, index + 2)
                * 0x1_0000 + read(row, index + 3) * 0x1_0000_0000 + read(row, index + 4)
                * 0x1_0000_0000_0000,
        }
    }
}

/// The kinds of the five cells of a decomposed 64-bit integer.
pub open spec fn u64_cell_kinds() -> Seq<CellKind> {
    seq![
        CellKind::U64,
        CellKind::Range(U16_BOUND),
        CellKind::Range(U16_BOUND),
        CellKind::Range(U16_BOUND),
        CellKind::Range(U16_BOUND),
    ]
}

/// A handle to a read lookup into the memory table: its position among the
/// lookups of the constraint builder.
#[derive(Clone, Copy, Debug, PartialEq, Eq)]
pub struct AllocatedMemoryTableLookupReadCell {
    pub lookup: usize,
}

/// A handle to a write lookup into the memory table: its position among the
/// lookups of the constraint builder.
#[derive(Clone, Copy, Debug, PartialEq, Eq)]
pub struct AllocatedMemoryTableLookupWriteCell {
    pub lookup: usize,
}

/// Hands out the cells of a row, one position after the other, and records
/// the kind of each.
#[derive(Debug)]
pub struct EventTableCellAllocator {
    pub kinds: Vec<CellKind>,
}

impl AllocatedU64Cell {
    /// The integer cell stands at `index` and its limbs behind it.
    pub open spec fn laid_out_at(self, index: int) -> bool {
        &&& self.u64_cell.cell.index == index
        &&& self.u16_cells_le[0].cell.index == index + 1
        &&& self.u16_cells_le[1].cell.index == index + 2
        &&& self.u16_cells_le[2].cell.index == index + 3
        &&& self.u16_cells_le[3].cell.index == index + 4
    }
}

impl EventTableCellAllocator {
    /// Every allocated cell of the row holds what its kind allows.
    pub open spec fn well_typed(&self, row: Seq<nat>) -> bool {
        forall|i: int| 0 <= i < self.kinds@.len() ==> (#[trigger] self.kinds@[i]).holds(row, i)
    }

    /// An allocator that has handed out nothing.
    pub fn new() -> (allocator: EventTableCellAllocator)
        ensures
            allocator.kinds@ == Seq::<CellKind>::empty(),
    {
        EventTableCellAllocator { kinds: Vec::new() }
    }

    fn alloc_cell(&mut self, kind: CellKind) -> (cell: Cell)
        ensures
            cell.index == old(self).kinds@.len(),
            final(self).kinds@ == old(self).kinds@.push(kind),
    {
        let index = self.kinds.len();
        self.kinds.push(kind);
        Cell { index }
    }

    /// A fresh cell without a constraint of its own.
    pub fn alloc_unlimited_cell(&mut self) -> (cell: AllocatedUnlimitedCell)
        ensures
            cell.cell.index == old(self).kinds@.len(),
            final(self).kinds@ == old(self).kinds@.push(CellKind::Unlimited),
    {
        AllocatedUnlimitedCell { cell: self.alloc_cell(CellKind::Unlimited) }
    }

    /// A fresh cell constrained to 0 or 1.
    pub fn alloc_bit_cell(&mut self) -> (cell: AllocatedBitCell)
        ensures
            cell.cell.index == old(self).kinds@.len(),
            final(self).kinds@ == old(self).kinds@.push(CellKind::Bit),
    {
        AllocatedBitCell { cell: self.alloc_cell(CellKind::Bit) }
    }

    /// A fresh cell constrained to less than 2^16.
    pub fn alloc_common_range_cell(&mut self) -> (cell: AllocatedCommonRangeCell)
        ensures
            cell.cell.index == old(self).kinds@.len(),
            final(self).kinds@ == old(self).kinds@.push(CellKind::Range(U16_BOUND)),
    {
        AllocatedCommonRangeCell { cell: self.alloc_cell(CellKind::Range(U16_BOUND)) }
    }

    /// A fresh 16-bit limb cell.
    pub fn alloc_u16_cell(&mut self) -> (cell: AllocatedU16Cell)
        ensures
            cell.cell.index == old(self).kinds@.len(),
            final(self).kinds@ == old(self).kinds@.push(CellKind::Range(U16_BOUND)),
    {
        AllocatedU16Cell { cell: self.alloc_cell(CellKind::Range(U16_BOUND)) }
    }

    /// A fresh decomposed 64-bit integer: the integer cell, then its four
    /// limbs.
    pub fn alloc_u64_cell(&mut self) -> (cell: AllocatedU64Cell)
        ensures
            cell.laid_out_at(old(self).kinds@.len() as int),
            final(self).kinds@ == old(self).kinds@ + u64_cell_kinds(),
    {
        let u64_cell = AllocatedUnlimitedCell { cell: self.alloc_cell(CellKind::U64) };
        let l0 = self.alloc_u16_cell();
        let l1 = self.alloc_u16_cell();
        let l2 = self.alloc_u16_cell();
        let l3 = self.alloc_u16_cell();
        assert(self.kinds@ =~= old(self).kinds@ + u64_cell_kinds());
        AllocatedU64Cell { u16_cells_le: [l0, l1, l2, l3], u64_cell }
    }

    /// Registers a read lookup into the memory table with the constraint
    /// builder. It takes no cell of the row.
    pub fn alloc_memory_table_lookup_read_cell(
        &mut self,
        name: &'static str,
        constraint_builder: &mut ConstraintBuilder,
        eid: AllocatedCommonRangeCell,
        location_type: Expression,
        offset: Expression,
        is_i32: Expression,
        value: Expression,
        enable: Expression,
    ) -> (cell: AllocatedMemoryTableLookupReadCell)
        ensures
            final(self).kinds@ == old(self).kinds@,
            cell.lookup == old(constraint_builder).requests().len(),
            final(constraint_builder).gates() == old(constraint_builder).gates(),
            final(constraint_builder).requests() == old(constraint_builder).requests().push(
                (Lookup {
                    name: name@,
                    access: MemoryAccess::Read,
                    eid: eid.cell,
                    location_type,
                    offset,
                    is_i32,
                    value,
                    enable,
                }),
            ),
    {
        let lookup = constraint_builder.push_lookup(
            MemoryTableLookup {
                name,
                access: MemoryAccess::Read,
                eid: eid.cell,
                location_type,
                offset,
                is_i32,
                value,
                enable,
            },
        );
        AllocatedMemoryTableLookupReadCell { lookup }
    }

    /// Registers a write lookup into the memory table with the constraint
    /// builder. It takes no cell of the row.
    pub fn alloc_memory_table_lookup_write_cell(
        &mut self,
        name: &'static str,
        constraint_builder: &mut ConstraintBuilder,
        eid: AllocatedCommonRangeCell,
        location_type: Expression,
        offset: Expression,
        is_i32: Expression,
        value: Expression,
        enable: Expression,
    ) -> (cell: AllocatedMemoryTableLookupWriteCell)
        ensures
            final(self).kinds@ == old(self).kinds@,
            cell.lookup == old(constraint_builder).requests().len(),
            final(constraint_builder).gates() == old(constraint_builder).gates(),
            final(constraint_builder).requests() == old(constraint_builder).requests().push(
                (Lookup {
                    name: name@,
                    access: MemoryAccess::Write,
                    eid: eid.cell,
                    location_type,
                    offset,
                    is_i32,
                    value,
                    enable,
                }),
            ),
    {
        let lookup = constraint_builder.push_lookup(
            MemoryTableLookup {
                name,
                access: MemoryAccess::Write,
                eid: eid.cell,
                location_type,
                offset,
                is_i32,
                value,
                enable,
            },
        );
        AllocatedMemoryTableLookupWriteCell { lookup }
    }
}

} // verus!
