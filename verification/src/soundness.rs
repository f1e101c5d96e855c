//! What the constraints of the conversion module say of a row, and that
//! the assigned witness meets them.

use crate::allocator::{CellKind, EventTableCellAllocator};
use crate::cell::{lemma_limbs_compose, limb};
use crate::constraint_builder::{table_well_typed, ConstraintBuilder, MemoryTableEntry};
use crate::etable::EventTableCommonConfig;
use crate::expression::{
    large_field, lemma_eval_small, lemma_read_store, lemma_vanishes_small, read, store,
    Expression,
};
use crate::op_conversion::ConversionConfig;
use crate::opcode::{conversion_encoding, ConversionOp};
use crate::step::{
    conversion_result, conversion_takes, operand_type, result_type, ConversionStep,
    EventTableEntry,
};
use vstd::arithmetic::div_mod::lemma_small_mod;
use vstd::prelude::*;

verus! {

/// What the typed cells of the module hold on a row that the allocator's
/// kinds allow.
proof fn lemma_typed_cells(
    config: ConversionConfig,
    common: EventTableCommonConfig,
    allocator_before: EventTableCellAllocator,
    allocator: EventTableCellAllocator,
    builder_before: ConstraintBuilder,
    builder: ConstraintBuilder,
    row: Seq<nat>,
)
    requires
        config.configured(common, allocator_before, allocator, builder_before, builder),
        allocator.well_typed(row),
    ensures
        ({
            let n = allocator_before.kinds@.len() as int;
            &&& read(row, n) == read(row, n + 1) + read(row, n + 2) * 0x1_0000 + read(row, n + 3)
                * 0x1_0000_0000 + read(row, n + 4) * 0x1_0000_0000_0000
            &&& read(row, n + 1) < 0x1_0000
            &&& read(row, n + 2) < 0x1_0000
            &&& read(row, n + 3) < 0x1_0000
            &&& read(row, n + 4) < 0x1_0000
            &&& read(row, n + 5) <= 1
            &&& read(row, n + 6) == read(row, n + 7) + read(row, n + 8) * 0x1_0000 + read(
                row,
                n + 9,
            ) * 0x1_0000_0000 + read(row, n + 10) * 0x1_0000_0000_0000
            &&& read(row, n + 7) < 0x1_0000
            &&& read(row, n + 8) < 0x1_0000
            &&& read(row, n + 9) < 0x1_0000
            &&& read(row, n + 10) < 0x1_0000
            &&& read(row, n + 11) <= 1
            &&& read(row, n + 12) <= 1
            &&& read(row, n + 13) < 0x1_0000
            &&& read(row, n + 14) < 0x1_0000
            &&& read(row, n + 15) <= 1
            &&& read(row, n + 16) <= 1
            &&& read(row, n + 17) <= 1
        }),
{
    let n = allocator_before.kinds@.len() as int;
    let kinds = ConversionConfig::kinds();
    assert(kinds.len() == 18);
    assert forall|i: int| 0 <= i < 18 implies (#[trigger] kinds[i]).holds(row, n + i) by {
        assert(allocator.kinds@[n + i] == kinds[i]);
        assert(allocator.kinds@[n + i].holds(row, n + i));
    }
    assert(kinds[0] == CellKind::U64 && kinds[0].holds(row, n + 0));
    assert(kinds[1].holds(row, n + 1));
    assert(kinds[2].holds(row, n + 2));
    assert(kinds[3].holds(row, n + 3));
    assert(kinds[4].holds(row, n + 4));
    assert(kinds[5].holds(row, n + 5));
    assert(kinds[6] == CellKind::U64 && kinds[6].holds(row, n + 6));
    assert(kinds[7].holds(row, n + 7));
    assert(kinds[8].holds(row, n + 8));
    assert(kinds[9].holds(row, n + 9));
    assert(kinds[10].holds(row, n + 10));
    assert(kinds[11].holds(row, n + 11));
    assert(kinds[12].holds(row, n + 12));
    assert(kinds[13].holds(row, n + 13));
    assert(kinds[14].holds(row, n + 14));
    assert(kinds[15].holds(row, n + 15));
    assert(kinds[16].holds(row, n + 16));
    assert(kinds[17].holds(row, n + 17));
}

/// A bit times a number is zero or the number.
proof fn lemma_bit_times(b: int, x: int)
    by (nonlinear_arith)
    requires
        0 <= b <= 1,
    ensures
        b == 0 ==> b * x == 0,
        b == 1 ==> b * x == x,
{
}

/// The integer value of each polynomial of the module, in the cells that
/// it speaks of.
proof fn lemma_gate_values(config: ConversionConfig, row: Seq<nat>)
    ensures
        ({
            let v = read(row, config.value.u64_cell.cell.index as int) as int;
            let l0 = read(row, config.value.u16_cells_le[0].cell.index as int) as int;
            let l1 = read(row, config.value.u16_cells_le[1].cell.index as int) as int;
            let vt = read(row, config.value_is_i32.cell.index as int) as int;
            let r = read(row, config.res.u64_cell.cell.index as int) as int;
            let rt = read(row, config.res_is_i32.cell.index as int) as int;
            let f = read(row, config.flag_bit.cell.index as int) as int;
            let rem = read(row, config.flag_u16_rem.cell.index as int) as int;
            let diff = read(row, config.flag_u16_rem_diff.cell.index as int) as int;
            let w = read(row, config.is_i32_wrap_i64.cell.index as int) as int;
            let u = read(row, config.is_i64_extend_i32_u.cell.index as int) as int;
            let s = read(row, config.is_i64_extend_i32_s.cell.index as int) as int;
            &&& config.pick_one().polys[0].value(row) == w + u + s - 1
            &&& config.type_matches_op().polys[0].value(row) == w * vt
            &&& config.type_matches_op().polys[1].value(row) == w * (rt - 1)
            &&& config.type_matches_op().polys[2].value(row) == (s + u) * (vt - 1)
            &&& config.type_matches_op().polys[3].value(row) == (s + u) * rt
            &&& config.i32_wrap_i64().polys[0].value(row) == w * (l1 * 0x1_0000 + l0 - r)
            &&& config.flag_bit_gate().polys[0].value(row) == f * 0x8000 + rem - l1
            &&& config.flag_bit_gate().polys[1].value(row) == rem + diff - 0x7fff
            &&& config.i64_extend_i32_u().polys[0].value(row) == u * (r - v)
            &&& config.i64_extend_i32_s().polys[0].value(row) == s * (f * 0xFFFF_FFFF_0000_0000
                + v - r)
        }),
{
    let v = read(row, config.value.u64_cell.cell.index as int) as int;
    let l0 = read(row, config.value.u16_cells_le[0].cell.index as int) as int;
    let l1 = read(row, config.value.u16_cells_le[1].cell.index as int) as int;
    let vt = read(row, config.value_is_i32.cell.index as int) as int;
    let r = read(row, config.res.u64_cell.cell.index as int) as int;
    let rt = read(row, config.res_is_i32.cell.index as int) as int;
    let f = read(row, config.flag_bit.cell.index as int) as int;
    let rem = read(row, config.flag_u16_rem.cell.index as int) as int;
    let diff = read(row, config.flag_u16_rem_diff.cell.index as int) as int;
    let w = read(row, config.is_i32_wrap_i64.cell.index as int) as int;
    let u = read(row, config.is_i64_extend_i32_u.cell.index as int) as int;
    let s = read(row, config.is_i64_extend_i32_s.cell.index as int) as int;
    assert(config.pick_one().polys[0].value(row) == w + u + s - 1) by {
        reveal_with_fuel(Expression::value, 5);
    }
    assert(config.type_matches_op().polys[0].value(row) == w * vt) by {
        reveal_with_fuel(Expression::value, 3);
    }
    assert(config.type_matches_op().polys[1].value(row) == w * (rt - 1)) by {
        reveal_with_fuel(Expression::value, 5);
        assert(rt + (-1) == rt - 1);
    }
    assert(config.type_matches_op().polys[2].value(row) == (s + u) * (vt - 1)) by {
        reveal_with_fuel(Expression::value, 5);
        assert(vt + (-1) == vt - 1);
    }
    assert(config.type_matches_op().polys[3].value(row) == (s + u) * rt) by {
        reveal_with_fuel(Expression::value, 4);
    }
    assert(config.i32_wrap_i64().polys[0].value(row) == w * (l1 * 0x1_0000 + l0 - r)) by {
        reveal_with_fuel(Expression::value, 6);
        assert((l1 * 0x1_0000 + l0) + (-r) == l1 * 0x1_0000 + l0 - r);
    }
    assert(config.flag_bit_gate().polys[0].value(row) == f * 0x8000 + rem - l1) by {
        reveal_with_fuel(Expression::value, 6);
    }
    assert(config.flag_bit_gate().polys[1].value(row) == rem + diff - 0x7fff) by {
        reveal_with_fuel(Expression::value, 5);
    }
    assert(config.i64_extend_i32_u().polys[0].value(row) == u * (r - v)) by {
        reveal_with_fuel(Expression::value, 5);
        assert(r + (-v) == r - v);
    }
    assert(config.i64_extend_i32_s().polys[0].value(row) == s * (f * 0xFFFF_FFFF_0000_0000 + v
        - r)) by {
        reveal_with_fuel(Expression::value, 6);
        assert((f * 0xFFFF_FFFF_0000_0000 + v) + (-r) == f * 0xFFFF_FFFF_0000_0000 + v - r);
    }
}

/// What the two lookups of the module ask of the memory table, on a row
/// whose width bits are bits and whose operand and result are 64-bit
/// integers: one read and one write, each enabled once.
proof fn lemma_lookup_entries(
    config: ConversionConfig,
    common: EventTableCommonConfig,
    row: Seq<nat>,
    p: nat,
)
    requires
        large_field(p),
        read(row, config.value_is_i32.cell.index as int) <= 1,
        read(row, config.res_is_i32.cell.index as int) <= 1,
        config.operand(row) < 0x1_0000_0000_0000_0000,
        config.result(row) < 0x1_0000_0000_0000_0000,
    ensures
        config.stack_read(common).enable.eval(row, p) == 1,
        config.stack_write(common).enable.eval(row, p) == 1,
        config.stack_read(common).entry(row, p) == config.read_access(common, row, p),
        config.stack_write(common).entry(row, p) == config.write_access(common, row, p),
{
    let read_request = config.stack_read(common);
    let write_request = config.stack_write(common);
    reveal_with_fuel(Expression::value, 3);
    lemma_eval_small(read_request.enable, row, p);
    lemma_eval_small(read_request.location_type, row, p);
    lemma_eval_small(read_request.is_i32, row, p);
    lemma_eval_small(read_request.value, row, p);
    lemma_eval_small(write_request.is_i32, row, p);
    lemma_eval_small(write_request.value, row, p);
}

/// What the six registered constraints of the module say, as equations
/// between integers, of a row that the cell kinds allow.
proof fn lemma_gate_equations(
    config: ConversionConfig,
    common: EventTableCommonConfig,
    allocator_before: EventTableCellAllocator,
    allocator: EventTableCellAllocator,
    builder_before: ConstraintBuilder,
    builder: ConstraintBuilder,
    row: Seq<nat>,
    p: nat,
)
    requires
        config.configured(common, allocator_before, allocator, builder_before, builder),
        large_field(p),
        allocator.well_typed(row),
        builder.gates_hold(row, p),
    ensures
        ({
            let n = allocator_before.kinds@.len() as int;
            let v = read(row, n) as int;
            let l0 = read(row, n + 1) as int;
            let l1 = read(row, n + 2) as int;
            let vt = read(row, n + 5) as int;
            let r = read(row, n + 6) as int;
            let rt = read(row, n + 11) as int;
            let f = read(row, n + 12) as int;
            let rem = read(row, n + 13) as int;
            let diff = read(row, n + 14) as int;
            let w = read(row, n + 15) as int;
            let u = read(row, n + 16) as int;
            let s = read(row, n + 17) as int;
            &&& w + u + s == 1
            &&& w == 1 ==> vt == 0 && rt == 1 && r == l1 * 0x1_0000 + l0
            &&& u == 1 ==> vt == 1 && rt == 0 && r == v
            &&& s == 1 ==> vt == 1 && rt == 0 && r == f * 0xFFFF_FFFF_0000_0000 + v
            &&& f * 0x8000 + rem == l1
            &&& rem + diff == 0x7fff
        }),
{
    lemma_typed_cells(config, common, allocator_before, allocator, builder_before, builder, row);
    lemma_gate_values(config, row);
    let n = allocator_before.kinds@.len() as int;
    let v = read(row, n) as int;
    let l0 = read(row, n + 1) as int;
    let l1 = read(row, n + 2) as int;
    let vt = read(row, n + 5) as int;
    let r = read(row, n + 6) as int;
    let rt = read(row, n + 11) as int;
    let f = read(row, n + 12) as int;
    let rem = read(row, n + 13) as int;
    let diff = read(row, n + 14) as int;
    let w = read(row, n + 15) as int;
    let u = read(row, n + 16) as int;
    let s = read(row, n + 17) as int;
    let g = builder_before.gates().len() as int;
    assert forall|k: int| 0 <= k < 6 implies (#[trigger] config.gates()[k]).holds(row, p) by {
        assert(builder.gates()[g + k] == config.gates()[k]);
        assert(builder.gates()[g + k].holds(row, p));
    }
    assert(config.gates()[0].holds(row, p));
    assert(config.gates()[1].holds(row, p));
    assert(config.gates()[2].holds(row, p));
    assert(config.gates()[3].holds(row, p));
    assert(config.gates()[4].holds(row, p));
    assert(config.gates()[5].holds(row, p));
    let pick = config.pick_one().polys[0];
    let t0 = config.type_matches_op().polys[0];
    let t1 = config.type_matches_op().polys[1];
    let t2 = config.type_matches_op().polys[2];
    let t3 = config.type_matches_op().polys[3];
    let wrap = config.i32_wrap_i64().polys[0];
    let e0 = config.flag_bit_gate().polys[0];
    let e1 = config.flag_bit_gate().polys[1];
    let x = config.i64_extend_i32_u().polys[0];
    let y = config.i64_extend_i32_s().polys[0];
    assert(pick.vanishes(row, p));
    assert(t0.vanishes(row, p) && t1.vanishes(row, p) && t2.vanishes(row, p) && t3.vanishes(
        row,
        p,
    ));
    assert(wrap.vanishes(row, p));
    assert(e0.vanishes(row, p) && e1.vanishes(row, p));
    assert(x.vanishes(row, p));
    assert(y.vanishes(row, p));

    lemma_vanishes_small(pick, row, p);
    assert(w + u + s == 1);
    lemma_bit_times(w, vt);
    lemma_bit_times(w, rt - 1);
    lemma_bit_times(s + u, vt - 1);
    lemma_bit_times(s + u, rt);
    lemma_vanishes_small(t0, row, p);
    lemma_vanishes_small(t1, row, p);
    lemma_vanishes_small(t2, row, p);
    lemma_vanishes_small(t3, row, p);
    lemma_bit_times(w, l1 * 0x1_0000 + l0 - r);
    lemma_vanishes_small(wrap, row, p);
    lemma_vanishes_small(e0, row, p);
    lemma_vanishes_small(e1, row, p);
    lemma_bit_times(u, r - v);
    lemma_vanishes_small(x, row, p);
    lemma_bit_times(s, f * 0xFFFF_FFFF_0000_0000 + v - r);
    lemma_vanishes_small(y, row, p);
}

/// On a row that the cell kinds allow and on which the registered
/// constraints are zero, exactly one of the three mode bits is 1.
pub proof fn lemma_one_hot(
    config: ConversionConfig,
    common: EventTableCommonConfig,
    allocator_before: EventTableCellAllocator,
    allocator: EventTableCellAllocator,
    builder_before: ConstraintBuilder,
    builder: ConstraintBuilder,
    row: Seq<nat>,
    p: nat,
)
    requires
        config.configured(common, allocator_before, allocator, builder_before, builder),
        large_field(p),
        allocator.well_typed(row),
        builder.gates_hold(row, p),
    ensures
        config.active_op(row) is Some,
        read(row, config.is_i32_wrap_i64.cell.index as int) + read(
            row,
            config.is_i64_extend_i32_u.cell.index as int,
        ) + read(row, config.is_i64_extend_i32_s.cell.index as int) == 1,
{
    lemma_typed_cells(config, common, allocator_before, allocator, builder_before, builder, row);
    lemma_gate_equations(
        config,
        common,
        allocator_before,
        allocator,
        builder_before,
        builder,
        row,
        p,
    );
}

/// Soundness of the module. On every row that the cell kinds allow, on
/// which the registered constraints are zero and whose lookups a
/// well-typed memory table answers: exactly one conversion is active; the
/// operand is one that this conversion takes; the result is what the
/// virtual machine makes of the operand under this conversion, so no other
/// result goes with the operand; the widths are those of the conversion;
/// the sign bit is bit 31 of the operand; and the memory table holds the
/// read of the operand and the write of the result.
pub proof fn lemma_conversion_sound(
    config: ConversionConfig,
    common: EventTableCommonConfig,
    allocator_before: EventTableCellAllocator,
    allocator: EventTableCellAllocator,
    builder_before: ConstraintBuilder,
    builder: ConstraintBuilder,
    row: Seq<nat>,
    p: nat,
    table: Set<MemoryTableEntry>,
)
    requires
        config.configured(common, allocator_before, allocator, builder_before, builder),
        large_field(p),
        allocator.well_typed(row),
        builder.satisfied(row, p, table),
        table_well_typed(table),
    ensures
        config.active_op(row) is Some,
        conversion_takes(config.active_op(row)->0, config.operand(row)),
        config.result(row) == conversion_result(config.active_op(row)->0, config.operand(row)),
        read(row, config.value_is_i32.cell.index as int) == if operand_type(
            config.active_op(row)->0,
        ).is_i32_spec() {
            1nat
        } else {
            0nat
        },
        read(row, config.res_is_i32.cell.index as int) == if result_type(
            config.active_op(row)->0,
        ).is_i32_spec() {
            1nat
        } else {
            0nat
        },
        read(row, config.flag_bit.cell.index as int) == (config.operand(row) % 0x1_0000_0000)
            / 0x8000_0000,
        table.contains(config.read_access(common, row, p)),
        table.contains(config.write_access(common, row, p)),
{
    lemma_typed_cells(config, common, allocator_before, allocator, builder_before, builder, row);
    lemma_gate_equations(
        config,
        common,
        allocator_before,
        allocator,
        builder_before,
        builder,
        row,
        p,
    );
    lemma_lookup_entries(config, common, row, p);
    let k = builder_before.requests().len() as int;
    assert(builder.requests()[k + 0] == config.requests(common)[0]);
    assert(builder.requests()[k + 1] == config.requests(common)[1]);
    assert(builder.requests()[k + 0].holds(row, p, table));
    assert(builder.requests()[k + 1].holds(row, p, table));
    assert(config.stack_read(common).holds(row, p, table));
    assert(config.stack_write(common).holds(row, p, table));
    assert(table.contains(config.read_access(common, row, p)));
    assert(table.contains(config.write_access(common, row, p)));
}

/// On a row on which exactly one conversion is active, the opcode
/// polynomial of the module takes the encoding of that conversion.
pub proof fn lemma_opcode_identifies(config: ConversionConfig, row: Seq<nat>, p: nat)
    requires
        large_field(p),
        config.active_op(row) is Some,
    ensures
        config.opcode_expr().eval(row, p) == conversion_encoding(config.active_op(row)->0),
{
    let w = read(row, config.is_i32_wrap_i64.cell.index as int) as int;
    let u = read(row, config.is_i64_extend_i32_u.cell.index as int) as int;
    let s = read(row, config.is_i64_extend_i32_s.cell.index as int) as int;
    let e = config.opcode_expr();
    let ew = conversion_encoding(ConversionOp::I32WrapI64) as int;
    let es = conversion_encoding(ConversionOp::I64ExtendI32s) as int;
    let eu = conversion_encoding(ConversionOp::I64ExtendI32u) as int;
    assert(e.value(row) == (w * ew + s * es) + u * eu) by {
        reveal_with_fuel(Expression::value, 5);
    }
    lemma_bit_times(w, ew);
    lemma_bit_times(s, es);
    lemma_bit_times(u, eu);
    lemma_eval_small(e, row, p);
}

/// What the witness of a conversion leaves in each cell of the module, and
/// that it leaves every other cell of the row as it was.
pub proof fn lemma_witness_cells(
    config: ConversionConfig,
    start: int,
    first_lookup: int,
    before: Seq<nat>,
    step: ConversionStep,
)
    requires
        0 <= start,
        config.laid_out_at(start, first_lookup),
    ensures
        ({
            let row = config.witness(before, step);
            let low = (step.value as nat) % 0x1_0000_0000;
            &&& read(row, start) == step.value
            &&& read(row, start + 1) == limb(step.value, 0)
            &&& read(row, start + 2) == limb(step.value, 1)
            &&& read(row, start + 3) == limb(step.value, 2)
            &&& read(row, start + 4) == limb(step.value, 3)
            &&& read(row, start + 5) == if step.value_type.is_i32_spec() { 1nat } else { 0nat }
            &&& read(row, start + 6) == step.result
            &&& read(row, start + 7) == limb(step.result, 0)
            &&& read(row, start + 8) == limb(step.result, 1)
            &&& read(row, start + 9) == limb(step.result, 2)
            &&& read(row, start + 10) == limb(step.result, 3)
            &&& read(row, start + 11) == if step.result_type.is_i32_spec() { 1nat } else { 0nat }
            &&& read(row, start + 12) == low / 0x8000_0000
            &&& read(row, start + 13) == (low / 0x1_0000) % 0x8000
            &&& read(row, start + 14) == 0x7fff - (low / 0x1_0000) % 0x8000
            &&& read(row, start + 15) == if step.op == ConversionOp::I32WrapI64 { 1nat } else { 0nat }
            &&& read(row, start + 16) == if step.op == ConversionOp::I64ExtendI32u { 1nat } else { 0nat }
            &&& read(row, start + 17) == if step.op == ConversionOp::I64ExtendI32s { 1nat } else { 0nat }
            &&& forall|i: int|
                !ConversionConfig::owns(start, i) ==> read(row, i) == read(before, i)
        }),
{
    let low = (step.value as nat) % 0x1_0000_0000;
    let m1 = store(before, start + 15, if step.op == ConversionOp::I32WrapI64 { 1nat } else { 0nat });
    let m2 = store(m1, start + 16, if step.op == ConversionOp::I64ExtendI32u { 1nat } else { 0nat });
    let m3 = store(m2, start + 17, if step.op == ConversionOp::I64ExtendI32s { 1nat } else { 0nat });
    let f1 = store(m3, start + 12, low / 0x8000_0000);
    let f2 = store(f1, start + 13, (low / 0x1_0000) % 0x8000);
    let f3 = store(f2, start + 14, (0x7fff - (low / 0x1_0000) % 0x8000) as nat);
    let a1 = store(f3, start, step.value as nat);
    let a2 = store(a1, start + 1, limb(step.value, 0));
    let a3 = store(a2, start + 2, limb(step.value, 1));
    let a4 = store(a3, start + 3, limb(step.value, 2));
    let a5 = store(a4, start + 4, limb(step.value, 3));
    let b1 = store(a5, start + 6, step.result as nat);
    let b2 = store(b1, start + 7, limb(step.result, 0));
    let b3 = store(b2, start + 8, limb(step.result, 1));
    let b4 = store(b3, start + 9, limb(step.result, 2));
    let b5 = store(b4, start + 10, limb(step.result, 3));
    let c1 = store(b5, start + 5, if step.value_type.is_i32_spec() { 1nat } else { 0nat });
    let c2 = store(c1, start + 11, if step.result_type.is_i32_spec() { 1nat } else { 0nat });
    reveal(ConversionConfig::witness);
    assert(a5 == config.value.assigned(f3, step.value));
    assert(b5 == config.res.assigned(a5, step.result));
    assert(c2 == config.witness(before, step));
    lemma_read_store(before, start + 15, if step.op == ConversionOp::I32WrapI64 { 1nat } else { 0nat });
    lemma_read_store(m1, start + 16, if step.op == ConversionOp::I64ExtendI32u { 1nat } else { 0nat });
    lemma_read_store(m2, start + 17, if step.op == ConversionOp::I64ExtendI32s { 1nat } else { 0nat });
    lemma_read_store(m3, start + 12, low / 0x8000_0000);
    lemma_read_store(f1, start + 13, (low / 0x1_0000) % 0x8000);
    lemma_read_store(f2, start + 14, (0x7fff - (low / 0x1_0000) % 0x8000) as nat);
    lemma_read_store(f3, start, step.value as nat);
    lemma_read_store(a1, start + 1, limb(step.value, 0));
    lemma_read_store(a2, start + 2, limb(step.value, 1));
    lemma_read_store(a3, start + 3, limb(step.value, 2));
    lemma_read_store(a4, start + 4, limb(step.value, 3));
    lemma_read_store(a5, start + 6, step.result as nat);
    lemma_read_store(b1, start + 7, limb(step.result, 0));
    lemma_read_store(b2, start + 8, limb(step.result, 1));
    lemma_read_store(b3, start + 9, limb(step.result, 2));
    lemma_read_store(b4, start + 10, limb(step.result, 3));
    lemma_read_store(b5, start + 5, if step.value_type.is_i32_spec() { 1nat } else { 0nat });
    lemma_read_store(c1, start + 11, if step.result_type.is_i32_spec() { 1nat } else { 0nat });
}

/// The constraints of the module are zero on a row on which its cells hold
/// the witness of an executed conversion.
proof fn lemma_witness_gates(
    config: ConversionConfig,
    start: int,
    first_lookup: int,
    row: Seq<nat>,
    step: ConversionStep,
    p: nat,
)
    requires
        0 <= start,
        config.laid_out_at(start, first_lookup),
        large_field(p),
        step.genuine(),
        ({
            let low = (step.value as nat) % 0x1_0000_0000;
            &&& read(row, start) == step.value
            &&& read(row, start + 1) == limb(step.value, 0)
            &&& read(row, start + 2) == limb(step.value, 1)
            &&& read(row, start + 5) == if step.value_type.is_i32_spec() { 1nat } else { 0nat }
            &&& read(row, start + 6) == step.result
            &&& read(row, start + 11) == if step.result_type.is_i32_spec() { 1nat } else { 0nat }
            &&& read(row, start + 12) == low / 0x8000_0000
            &&& read(row, start + 13) == (low / 0x1_0000) % 0x8000
            &&& read(row, start + 14) == 0x7fff - (low / 0x1_0000) % 0x8000
            &&& read(row, start + 15) == if step.op == ConversionOp::I32WrapI64 { 1nat } else { 0nat }
            &&& read(row, start + 16) == if step.op == ConversionOp::I64ExtendI32u { 1nat } else { 0nat }
            &&& read(row, start + 17) == if step.op == ConversionOp::I64ExtendI32s { 1nat } else { 0nat }
        }),
    ensures
        forall|k: int| 0 <= k < 6 ==> (#[trigger] config.gates()[k]).holds(row, p),
{
    lemma_gate_values(config, row);
    let v = read(row, start) as int;
    let l0 = read(row, start + 1) as int;
    let l1 = read(row, start + 2) as int;
    let vt = read(row, start + 5) as int;
    let r = read(row, start + 6) as int;
    let rt = read(row, start + 11) as int;
    let f = read(row, start + 12) as int;
    let rem = read(row, start + 13) as int;
    let diff = read(row, start + 14) as int;
    let w = read(row, start + 15) as int;
    let u = read(row, start + 16) as int;
    let s = read(row, start + 17) as int;
    lemma_bit_times(w, vt);
    lemma_bit_times(w, rt - 1);
    lemma_bit_times(s + u, vt - 1);
    lemma_bit_times(s + u, rt);
    lemma_bit_times(w, l1 * 0x1_0000 + l0 - r);
    lemma_bit_times(u, r - v);
    lemma_bit_times(s, f * 0xFFFF_FFFF_0000_0000 + v - r);
    assert(f * 0x8000 + rem - l1 == 0);
    assert(rem + diff - 0x7fff == 0);
    assert(w == 1 ==> l1 * 0x1_0000 + l0 - r == 0);
    assert(s == 1 ==> f * 0xFFFF_FFFF_0000_0000 + v - r == 0);
    lemma_eval_small(config.pick_one().polys[0], row, p);
    lemma_eval_small(config.type_matches_op().polys[0], row, p);
    lemma_eval_small(config.type_matches_op().polys[1], row, p);
    lemma_eval_small(config.type_matches_op().polys[2], row, p);
    lemma_eval_small(config.type_matches_op().polys[3], row, p);
    lemma_eval_small(config.i32_wrap_i64().polys[0], row, p);
    lemma_eval_small(config.flag_bit_gate().polys[0], row, p);
    lemma_eval_small(config.flag_bit_gate().polys[1], row, p);
    lemma_eval_small(config.i64_extend_i32_u().polys[0], row, p);
    lemma_eval_small(config.i64_extend_i32_s().polys[0], row, p);
    assert(config.gates()[0].holds(row, p));
    assert(config.gates()[1].holds(row, p));
    assert(config.gates()[2].holds(row, p));
    assert(config.gates()[3].holds(row, p));
    assert(config.gates()[4].holds(row, p));
    assert(config.gates()[5].holds(row, p));
}

/// The cells of the module hold what their kinds allow on a row on which
/// they hold the witness of a conversion.
proof fn lemma_witness_kinds(start: int, row: Seq<nat>, step: ConversionStep)
    requires
        0 <= start,
        ({
            let low = (step.value as nat) % 0x1_0000_0000;
            &&& read(row, start) == step.value
            &&& read(row, start + 1) == limb(step.value, 0)
            &&& read(row, start + 2) == limb(step.value, 1)
            &&& read(row, start + 3) == limb(step.value, 2)
            &&& read(row, start + 4) == limb(step.value, 3)
            &&& read(row, start + 5) <= 1
            &&& read(row, start + 6) == step.result
            &&& read(row, start + 7) == limb(step.result, 0)
            &&& read(row, start + 8) == limb(step.result, 1)
            &&& read(row, start + 9) == limb(step.result, 2)
            &&& read(row, start + 10) == limb(step.result, 3)
            &&& read(row, start + 11) <= 1
            &&& read(row, start + 12) == low / 0x8000_0000
            &&& read(row, start + 13) == (low / 0x1_0000) % 0x8000
            &&& read(row, start + 14) == 0x7fff - (low / 0x1_0000) % 0x8000
            &&& read(row, start + 15) <= 1
            &&& read(row, start + 16) <= 1
            &&& read(row, start + 17) <= 1
        }),
    ensures
        forall|i: int|
            0 <= i < 18 ==> (#[trigger] ConversionConfig::kinds()[i]).holds(row, start + i),
{
    let kinds = ConversionConfig::kinds();
    lemma_limbs_compose(step.value);
    lemma_limbs_compose(step.result);
    assert(kinds[0].holds(row, start + 0));
    assert(kinds[1].holds(row, start + 1));
    assert(kinds[2].holds(row, start + 2));
    assert(kinds[3].holds(row, start + 3));
    assert(kinds[4].holds(row, start + 4));
    assert(kinds[5].holds(row, start + 5));
    assert(kinds[6].holds(row, start + 6));
    assert(kinds[7].holds(row, start + 7));
    assert(kinds[8].holds(row, start + 8));
    assert(kinds[9].holds(row, start + 9));
    assert(kinds[10].holds(row, start + 10));
    assert(kinds[11].holds(row, start + 11));
    assert(kinds[12].holds(row, start + 12));
    assert(kinds[13].holds(row, start + 13));
    assert(kinds[14].holds(row, start + 14));
    assert(kinds[15].holds(row, start + 15));
    assert(kinds[16].holds(row, start + 16));
    assert(kinds[17].holds(row, start + 17));
}

/// Completeness of the module. The witness of a conversion that the
/// virtual machine executed, written into a row that holds the
/// instruction's execution id and stack pointer: gives every cell of the
/// module what its kind allows; makes every constraint of the module zero;
/// asks the memory table for exactly the read and the write that the
/// instruction made, so that a table that holds the two answers both
/// lookups; and leaves all other cells as they were.
pub proof fn lemma_conversion_complete(
    config: ConversionConfig,
    common: EventTableCommonConfig,
    allocator_before: EventTableCellAllocator,
    allocator: EventTableCellAllocator,
    builder_before: ConstraintBuilder,
    builder: ConstraintBuilder,
    before: Seq<nat>,
    entry: EventTableEntry,
    p: nat,
    table: Set<MemoryTableEntry>,
)
    requires
        config.configured(common, allocator_before, allocator, builder_before, builder),
        large_field(p),
        entry.step_info.conversion_of() is Some,
        entry.step_info.conversion_of()->0.genuine(),
        !ConversionConfig::owns(
            allocator_before.kinds@.len() as int,
            common.eid_cell.cell.index as int,
        ),
        !ConversionConfig::owns(
            allocator_before.kinds@.len() as int,
            common.sp_cell.cell.index as int,
        ),
        read(before, common.eid_cell.cell.index as int) == entry.eid,
        read(before, common.sp_cell.cell.index as int) == entry.sp,
    ensures
        ({
            let step = entry.step_info.conversion_of()->0;
            let row = config.witness(before, step);
            let n = allocator_before.kinds@.len() as int;
            &&& forall|i: int| n <= i < n + 18 ==> (#[trigger] allocator.kinds@[i]).holds(row, i)
            &&& forall|k: int| 0 <= k < 6 ==> (#[trigger] config.gates()[k]).holds(row, p)
            &&& config.active_op(row) == Some(step.op)
            &&& config.read_access(common, row, p) == ConversionConfig::executed_read(entry, step)
            &&& config.write_access(common, row, p) == ConversionConfig::executed_write(
                entry,
                step,
            )
            &&& table.contains(ConversionConfig::executed_read(entry, step)) ==> config.stack_read(
                common,
            ).holds(row, p, table)
            &&& table.contains(ConversionConfig::executed_write(entry, step))
                ==> config.stack_write(common).holds(row, p, table)
            &&& forall|i: int| !ConversionConfig::owns(n, i) ==> read(row, i) == read(before, i)
        }),
{
    let step = entry.step_info.conversion_of()->0;
    let row = config.witness(before, step);
    let n = allocator_before.kinds@.len() as int;
    let k = builder_before.requests().len() as int;
    lemma_witness_cells(config, n, k, before, step);
    lemma_witness_gates(config, n, k, row, step, p);
    lemma_lookup_entries(config, common, row, p);
    lemma_witness_kinds(n, row, step);
    let kinds = ConversionConfig::kinds();
    assert forall|i: int| n <= i < n + 18 implies (#[trigger] allocator.kinds@[i]).holds(
        row,
        i,
    ) by {
        assert(allocator.kinds@[i] == kinds[i - n]);
        assert(kinds[i - n].holds(row, n + (i - n)));
    }
    lemma_small_mod((entry.sp + 1) as nat, p);
}

} // verus!
