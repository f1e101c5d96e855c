//! Evaluation of polynomials, constraints, cell kinds and lookups on an
//! assigned row.

use crate::allocator::{CellKind, EventTableCellAllocator};
use crate::cell::Context;
use crate::constraint_builder::{
    ConstraintBuilder, MemoryAccess, MemoryTableEntry, MemoryTableLookup,
};
use crate::expression::{large_field, lemma_eval_in_field, read, Cell, Expression};
use crate::field::{FieldElement, Modulus};
use vstd::arithmetic::div_mod::lemma_small_mod;
use vstd::prelude::*;

verus! {

impl Expression {
    /// The field element that the polynomial takes on the row.
    pub fn evaluate(&self, ctx: &Context, modulus: &Modulus) -> (r: FieldElement)
        ensures
            r.value() == self.eval(ctx@, modulus.value()),
            r.value() < modulus.value(),
            large_field(modulus.value()),
        decreases self,
    {
        match self {
            Expression::Constant(c) => {
                let r = modulus.element(*c);
                proof {
                    lemma_small_mod(*c as nat, modulus.value());
                }
                r
            },
            Expression::Query(cell) => {
                let v = ctx.get(*cell);
                let r = modulus.element(v as u128);
                proof {
                    lemma_small_mod(v as nat, modulus.value());
                }
                r
            },
            Expression::Negated(e) => {
                let v = e.evaluate(ctx, modulus);
                proof {
                    lemma_eval_in_field(**e, **e, ctx@, modulus.value());
                }
                modulus.negation(&v)
            },
            Expression::Sum(a, b) => {
                let x = a.evaluate(ctx, modulus);
                let y = b.evaluate(ctx, modulus);
                proof {
                    lemma_eval_in_field(**a, **b, ctx@, modulus.value());
                }
                modulus.sum(&x, &y)
            },
            Expression::Product(a, b) => {
                let x = a.evaluate(ctx, modulus);
                let y = b.evaluate(ctx, modulus);
                proof {
                    lemma_eval_in_field(**a, **b, ctx@, modulus.value());
                }
                modulus.product(&x, &y)
            },
        }
    }
}

impl ConstraintBuilder {
    /// Whether every registered constraint is zero on the row.
    pub fn gates_hold_on(&self, ctx: &Context, modulus: &Modulus) -> (r: bool)
        ensures
            r == self.gates_hold(ctx@, modulus.value()),
    {
        let mut i: usize = 0;
        while i < self.constraints.len()
            invariant
                i <= self.constraints@.len(),
                forall|k: int| 0 <= k < i ==> (#[trigger] self.gates()[k]).holds(
                    ctx@,
                    modulus.value(),
                ),
            decreases self.constraints@.len() - i,
        {
            let polys = &self.constraints[i].polys;
            assert(self.gates()[i as int].polys == polys@);
            let mut j: usize = 0;
            while j < polys.len()
                invariant
                    i < self.constraints@.len(),
                    self.gates()[i as int].polys == polys@,
                    j <= polys@.len(),
                    forall|m: int| 0 <= m < j ==> (#[trigger] polys@[m]).vanishes(
                        ctx@,
                        modulus.value(),
                    ),
                decreases polys@.len() - j,
            {
                let v = polys[j].evaluate(ctx, modulus);
                if !v.is_zero() {
                    assert(!self.gates()[i as int].polys[j as int].vanishes(
                        ctx@,
                        modulus.value(),
                    ));
                    assert(!self.gates()[i as int].holds(ctx@, modulus.value()));
                    return false;
                }
                j += 1;
            }
            i += 1;
        }
        true
    }
}

/// What a lookup asks of the memory table on one row.
pub struct MemoryRequest {
    pub access: MemoryAccess,
    pub eid: u64,
    pub location_type: FieldElement,
    pub offset: FieldElement,
    pub is_i32: FieldElement,
    pub value: FieldElement,
    pub enable: FieldElement,
}

impl MemoryRequest {
    /// The access that is asked for.
    pub open spec fn entry(&self) -> MemoryTableEntry {
        MemoryTableEntry {
            access: self.access,
            eid: self.eid as nat,
            location_type: self.location_type.value(),
            offset: self.offset.value(),
            is_i32: self.is_i32.value(),
            value: self.value.value(),
        }
    }
}

impl MemoryTableLookup {
    /// What the lookup asks of the memory table on the row, and how often.
    pub fn request(&self, ctx: &Context, modulus: &Modulus) -> (r: MemoryRequest)
        ensures
            r.entry() == self@.entry(ctx@, modulus.value()),
            r.enable.value() == self@.enable.eval(ctx@, modulus.value()),
    {
        MemoryRequest {
            access: self.access,
            eid: ctx.get(self.eid),
            location_type: self.location_type.evaluate(ctx, modulus),
            offset: self.offset.evaluate(ctx, modulus),
            is_i32: self.is_i32.evaluate(ctx, modulus),
            value: self.value.evaluate(ctx, modulus),
            enable: self.enable.evaluate(ctx, modulus),
        }
    }
}

fn value_behind(ctx: &Context, index: usize, distance: usize) -> (v: u64)
    ensures
        v as nat == read(ctx@, index + distance),
{
    if index <= usize::MAX - distance {
        ctx.get(Cell { index: index + distance })
    } else {
        assert(ctx@.len() == ctx.cells.len());
        0
    }
}

impl EventTableCellAllocator {
    /// Whether every allocated cell of the row holds what its kind allows.
    pub fn well_typed_on(&self, ctx: &Context) -> (r: bool)
        ensures
            r == self.well_typed(ctx@),
    {
        let mut i: usize = 0;
        while i < self.kinds.len()
            invariant
                i <= self.kinds@.len(),
                forall|k: int| 0 <= k < i ==> (#[trigger] self.kinds@[k]).holds(ctx@, k),
            decreases self.kinds@.len() - i,
        {
            let v = ctx.get(Cell { index: i });
            let allowed = match self.kinds[i] {
                CellKind::Unlimited => true,
                CellKind::Bit => v <= 1,
                CellKind::Range(bound) => v < bound,
                CellKind::U64 => {
                    let l0 = value_behind(ctx, i, 1) as u128;
                    let l1 = value_behind(ctx, i, 2) as u128;
                    let l2 = value_behind(ctx, i, 3) as u128;
                    let l3 = value_behind(ctx, i, 4) as u128;
                    v as u128 == l0 + l1 * 0x1_0000 + l2 * 0x1_0000_0000 + l3
                        * 0x1_0000_0000_0000
                },
            };
            if !allowed {
                assert(!self.kinds@[i as int].holds(ctx@, i as int));
                return false;
            }
            i += 1;
        }
        true
    }
}

} // verus!
