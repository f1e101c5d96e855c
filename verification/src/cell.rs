//! Typed cells of the constraint table, and the row that a witness is
//! written into.

use crate::expression::{read, store, Cell, Expression};
use vstd::prelude::*;

verus! {

/// The values of one row during witness assignment. A cell that was never
/// assigned holds zero.
#[derive(Debug)]
pub struct Context {
    pub cells: Vec<u64>,
}

impl View for Context {
    type V = Seq<nat>;

    open spec fn view(&self) -> Seq<nat> {
        Seq::new(self.cells@.len(), |i: int| self.cells@[i] as nat)
    }
}

impl Context {
    /// A row in which nothing is assigned yet.
    pub fn new() -> (ctx: Context)
        ensures
            ctx@ == Seq::<nat>::empty(),
    {
        let ctx = Context { cells: Vec::new() };
        assert(ctx@ =~= Seq::<nat>::empty());
        ctx
    }

    /// The value that the row holds in `cell`.
    pub fn get(&self, cell: Cell) -> (value: u64)
        ensures
            value as nat == read(self@, cell.index as int),
    {
        if cell.index < self.cells.len() {
            self.cells[cell.index]
        } else {
            0
        }
    }

    /// Stores `value` in `cell`.
    pub fn assign(&mut self, cell: Cell, value: u64)
        ensures
            final(self)@ == store(old(self)@, cell.index as int, value as nat),
    {
        let ghost before = self.cells@;
        while self.cells.len() <= cell.index
            invariant
                before.len() <= self.cells@.len(),
                self.cells@.len() <= before.len() || self.cells@.len() <= cell.index + 1,
                forall|i: int| 0 <= i < before.len() ==> self.cells@[i] == before[i],
                forall|i: int| before.len() <= i < self.cells@.len() ==> self.cells@[i] == 0,
            decreases cell.index + 1 - self.cells@.len(),
        {
            self.cells.push(0);
        }
        self.cells.set(cell.index, value);
        assert(self@ =~= store(old(self)@, cell.index as int, value as nat)) by {
            reveal(store);
        }
    }
}

/// A cell that no constraint of its own bounds.
#[derive(Clone, Copy, Debug, PartialEq, Eq)]
pub struct AllocatedUnlimitedCell {
    pub cell: Cell,
}

/// A cell that the table constrains to hold 0 or 1.
#[derive(Clone, Copy, Debug, PartialEq, Eq)]
pub struct AllocatedBitCell {
    pub cell: Cell,
}

/// A cell that the table constrains, by a range lookup, to hold less than
/// 2^16.
#[derive(Clone, Copy, Debug, PartialEq, Eq)]
pub struct AllocatedCommonRangeCell {
    pub cell: Cell,
}

/// One 16-bit limb of a decomposed integer.
#[derive(Clone, Copy, Debug, PartialEq, Eq)]
pub struct AllocatedU16Cell {
    pub cell: Cell,
}

/// A 64-bit integer together with its four 16-bit limbs, least significant
/// first. The table constrains the integer to be the weighted sum of the
/// limbs.
#[derive(Clone, Copy, Debug, PartialEq, Eq)]
pub struct AllocatedU64Cell {
    pub u16_cells_le: [AllocatedU16Cell; 4],
    pub u64_cell: AllocatedUnlimitedCell,
}

/// The `k`-th 16-bit limb of `value`, counted from the least significant.
pub open spec fn limb(value: u64, k: int) -> nat {
    if k == 0 {
        (value as nat) % 0x1_0000
    } else if k == 1 {
        ((value as nat) / 0x1_0000) % 0x1_0000
    } else if k == 2 {
        ((value as nat) / 0x1_0000_0000) % 0x1_0000
    } else {
        ((value as nat) / 0x1_0000_0000_0000) % 0x1_0000
    }
}

/// A 64-bit integer is the weighted sum of its limbs.
pub proof fn lemma_limbs_compose(value: u64)
    ensures
        value as nat == limb(value, 0) + limb(value, 1) * 0x1_0000 + limb(value, 2)
            * 0x1_0000_0000 + limb(value, 3) * 0x1_0000_0000_0000,
        limb(value, 0) < 0x1_0000,
        limb(value, 1) < 0x1_0000,
        limb(value, 2) < 0x1_0000,
        limb(value, 3) < 0x1_0000,
{
}

impl AllocatedUnlimitedCell {
    pub fn expr(&self) -> (r: Expression)
        ensures
            r == Expression::Query(self.cell),
    {
        self.cell.expr()
    }

    pub fn assign(&self, ctx: &mut Context, value: u64)
        ensures
            final(ctx)@ == store(old(ctx)@, self.cell.index as int, value as nat),
    {
        ctx.assign(self.cell, value);
    }
}

impl AllocatedBitCell {
    pub fn expr(&self) -> (r: Expression)
        ensures
            r == Expression::Query(self.cell),
    {
        self.cell.expr()
    }

    pub fn assign(&self, ctx: &mut Context, value: bool)
        ensures
            final(ctx)@ == store(
                old(ctx)@,
                self.cell.index as int,
                if value { 1nat } else { 0nat },
            ),
    {
        ctx.assign(self.cell, if value { 1 } else { 0 });
    }
}

impl AllocatedCommonRangeCell {
    pub fn expr(&self) -> (r: Expression)
        ensures
            r == Expression::Query(self.cell),
    {
        self.cell.expr()
    }

    pub fn assign_u32(&self, ctx: &mut Context, value: u32)
        ensures
            final(ctx)@ == store(old(ctx)@, self.cell.index as int, value as nat),
    {
        ctx.assign(self.cell, value as u64);
    }
}

impl AllocatedU16Cell {
    pub fn expr(&self) -> (r: Expression)
        ensures
            r == Expression::Query(self.cell),
    {
        self.cell.expr()
    }

    pub fn assign(&self, ctx: &mut Context, value: u16)
        ensures
            final(ctx)@ == store(old(ctx)@, self.cell.index as int, value as nat),
    {
        ctx.assign(self.cell, value as u64);
    }
}

impl AllocatedU64Cell {
    /// The row after the integer and its four limbs are stored.
    pub open spec fn assigned(self, row: Seq<nat>, value: u64) -> Seq<nat> {
        let r = store(row, self.u64_cell.cell.index as int, value as nat);
        let r = store(r, self.u16_cells_le[0].cell.index as int, limb(value, 0));
        let r = store(r, self.u16_cells_le[1].cell.index as int, limb(value, 1));
        let r = store(r, self.u16_cells_le[2].cell.index as int, limb(value, 2));
        store(r, self.u16_cells_le[3].cell.index as int, limb(value, 3))
    }

    /// Stores `value` in the integer cell and its 16-bit limbs in the limb
    /// cells.
    pub fn assign(&self, ctx: &mut Context, value: u64)
        ensures
            final(ctx)@ == self.assigned(old(ctx)@, value),
    {
        let l0: u16 = (value & 0xffff) as u16;
        let l1: u16 = ((value >> 16) & 0xffff) as u16;
        let l2: u16 = ((value >> 32) & 0xffff) as u16;
        let l3: u16 = ((value >> 48) & 0xffff) as u16;
        assert(value & 0xffff == value % 0x1_0000) by (bit_vector);
        assert((value >> 16) & 0xffff == (value / 0x1_0000) % 0x1_0000) by (bit_vector);
        assert((value >> 32) & 0xffff == (value / 0x1_0000_0000) % 0x1_0000) by (bit_vector);
        assert((value >> 48) & 0xffff == (value / 0x1_0000_0000_0000) % 0x1_0000)
            by (bit_vector);
        self.u64_cell.assign(ctx, value);
        self.u16_cells_le[0].assign(ctx, l0);
        self.u16_cells_le[1].assign(ctx, l1);
        self.u16_cells_le[2].assign(ctx, l2);
        self.u16_cells_le[3].assign(ctx, l3);
    }
}

} // verus!
