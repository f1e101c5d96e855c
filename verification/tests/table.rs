use etable_conversion::allocator::{CellKind, EventTableCellAllocator};
use etable_conversion::cell::Context;
use etable_conversion::constraint_builder::ConstraintBuilder;
use etable_conversion::expression::{Cell, Expression};
use etable_conversion::field::Modulus;

fn pasta() -> Modulus {
    Modulus::from_limbs([0x992d30ed00000001, 0x224698fc094cf91b, 0, 0x4000000000000000]).unwrap()
}

#[test]
fn allocator_hands_out_positions_in_order() {
    let mut a = EventTableCellAllocator::new();
    assert_eq!(a.alloc_bit_cell().cell, Cell { index: 0 });
    assert_eq!(a.alloc_unlimited_cell().cell, Cell { index: 1 });
    let v = a.alloc_u64_cell();
    assert_eq!(v.u64_cell.cell, Cell { index: 2 });
    assert_eq!(v.u16_cells_le[0].cell, Cell { index: 3 });
    assert_eq!(v.u16_cells_le[1].cell, Cell { index: 4 });
    assert_eq!(v.u16_cells_le[2].cell, Cell { index: 5 });
    assert_eq!(v.u16_cells_le[3].cell, Cell { index: 6 });
    assert_eq!(a.alloc_common_range_cell().cell, Cell { index: 7 });
    assert_eq!(a.alloc_u16_cell().cell, Cell { index: 8 });
    assert_eq!(
        a.kinds,
        vec![
            CellKind::Bit,
            CellKind::Unlimited,
            CellKind::U64,
            CellKind::Range(0x1_0000),
            CellKind::Range(0x1_0000),
            CellKind::Range(0x1_0000),
            CellKind::Range(0x1_0000),
            CellKind::Range(0x1_0000),
            CellKind::Range(0x1_0000),
        ]
    );
}

#[test]
fn u64_cell_assigns_its_limbs() {
    let mut a = EventTableCellAllocator::new();
    let v = a.alloc_u64_cell();
    let mut ctx = Context::new();
    v.assign(&mut ctx, 0x0123_4567_89AB_CDEF);
    assert_eq!(ctx.cells, vec![0x0123_4567_89AB_CDEF, 0xCDEF, 0x89AB, 0x4567, 0x0123]);
    assert!(a.well_typed_on(&ctx));
    ctx.assign(v.u16_cells_le[2].cell, 0x4568);
    assert!(!a.well_typed_on(&ctx));
}

#[test]
fn unassigned_row_is_well_typed() {
    let mut a = EventTableCellAllocator::new();
    a.alloc_u64_cell();
    a.alloc_bit_cell();
    assert!(a.well_typed_on(&Context::new()));
}

#[test]
fn range_cell_is_bounded_by_two_to_the_16() {
    let mut a = EventTableCellAllocator::new();
    let c = a.alloc_common_range_cell();
    let mut ctx = Context::new();
    c.assign_u32(&mut ctx, 0xFFFF);
    assert!(a.well_typed_on(&ctx));
    c.assign_u32(&mut ctx, 0x1_0000);
    assert!(!a.well_typed_on(&ctx));
}

#[test]
fn bit_cell_holds_zero_or_one() {
    let mut a = EventTableCellAllocator::new();
    let c = a.alloc_bit_cell();
    let mut ctx = Context::new();
    c.assign(&mut ctx, true);
    assert_eq!(ctx.get(c.cell), 1);
    assert!(a.well_typed_on(&ctx));
    c.assign(&mut ctx, false);
    assert_eq!(ctx.get(c.cell), 0);
    ctx.assign(c.cell, 2);
    assert!(!a.well_typed_on(&ctx));
}

#[test]
fn context_grows_with_zeros() {
    let mut ctx = Context::new();
    assert_eq!(ctx.get(Cell { index: 3 }), 0);
    ctx.assign(Cell { index: 3 }, 9);
    assert_eq!(ctx.cells, vec![0, 0, 0, 9]);
    ctx.assign(Cell { index: 1 }, 8);
    assert_eq!(ctx.cells, vec![0, 8, 0, 9]);
}

#[test]
fn builder_checks_every_polynomial() {
    let mut b = ConstraintBuilder::new();
    let x = Cell { index: 0 };
    let y = Cell { index: 1 };
    b.push("x is five", vec![Expression::difference(x.expr(), Expression::constant(5))]);
    b.push(
        "y is x squared, and a bit",
        vec![
            Expression::difference(y.expr(), Expression::product(x.expr(), x.expr())),
            Expression::product(
                y.expr(),
                Expression::difference(y.expr(), Expression::constant(1)),
            ),
        ],
    );
    let p = pasta();
    let mut ctx = Context::new();
    ctx.assign(x, 5);
    ctx.assign(y, 25);
    assert!(!b.gates_hold_on(&ctx, &p));
    let mut only_first = ConstraintBuilder::new();
    only_first.push("x is five", vec![Expression::difference(x.expr(), Expression::constant(5))]);
    assert!(only_first.gates_hold_on(&ctx, &p));
    ctx.assign(x, 6);
    assert!(!only_first.gates_hold_on(&ctx, &p));
    assert!(ConstraintBuilder::new().gates_hold_on(&ctx, &p));
}
