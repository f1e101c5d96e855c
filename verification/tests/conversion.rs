use etable_conversion::allocator::{CellKind, EventTableCellAllocator};
use etable_conversion::cell::{AllocatedCommonRangeCell, Context};
use etable_conversion::etable::{
    Error, EventTableCommonConfig, EventTableOpcodeConfig, EventTableOpcodeConfigBuilder,
};
use etable_conversion::constraint_builder::{ConstraintBuilder, MemoryAccess};
use etable_conversion::expression::{Cell, Expression};
use etable_conversion::field::Modulus;
use etable_conversion::op_conversion::{
    extract_sign, ConversionConfig, ConversionConfigBuilder, SignFlag,
};
use etable_conversion::opcode::{encode_conversion, ConversionOp};
use etable_conversion::step::{EventTableEntry, StepInfo};

struct Circuit {
    common: EventTableCommonConfig,
    allocator: EventTableCellAllocator,
    builder: ConstraintBuilder,
    config: ConversionConfig,
}

fn circuit() -> Circuit {
    let mut allocator = EventTableCellAllocator::new();
    let common = EventTableCommonConfig {
        eid_cell: allocator.alloc_common_range_cell(),
        sp_cell: allocator.alloc_common_range_cell(),
    };
    let mut builder = ConstraintBuilder::new();
    let config = ConversionConfigBuilder::configure(&common, &mut allocator, &mut builder);
    Circuit { common, allocator, builder, config }
}

fn pasta() -> Modulus {
    Modulus::from_limbs([0x992d30ed00000001, 0x224698fc094cf91b, 0, 0x4000000000000000]).unwrap()
}

fn row(circuit: &Circuit, entry: &EventTableEntry) -> Context {
    let mut ctx = Context::new();
    ctx.assign(circuit.common.eid_cell.cell, entry.eid as u64);
    ctx.assign(circuit.common.sp_cell.cell, entry.sp as u64);
    circuit.config.assign(&mut ctx, entry).unwrap();
    ctx
}

fn entry(step_info: StepInfo) -> EventTableEntry {
    EventTableEntry { eid: 7, sp: 100, step_info }
}

fn satisfied(circuit: &Circuit, ctx: &Context) -> bool {
    circuit.allocator.well_typed_on(ctx) && circuit.builder.gates_hold_on(ctx, &pasta())
}

fn mode_bits(circuit: &Circuit, ctx: &Context) -> (u64, u64, u64) {
    (
        ctx.get(circuit.config.is_i32_wrap_i64.cell),
        ctx.get(circuit.config.is_i64_extend_i32_u.cell),
        ctx.get(circuit.config.is_i64_extend_i32_s.cell),
    )
}

#[test]
fn configure_takes_eighteen_cells_in_order() {
    let c = circuit();
    assert_eq!(c.allocator.kinds.len(), 20);
    let u16_kind = CellKind::Range(0x1_0000);
    let expected = vec![
        u16_kind,
        u16_kind,
        CellKind::U64,
        u16_kind,
        u16_kind,
        u16_kind,
        u16_kind,
        CellKind::Bit,
        CellKind::U64,
        u16_kind,
        u16_kind,
        u16_kind,
        u16_kind,
        CellKind::Bit,
        CellKind::Bit,
        u16_kind,
        u16_kind,
        CellKind::Bit,
        CellKind::Bit,
        CellKind::Bit,
    ];
    assert_eq!(c.allocator.kinds, expected);
    assert_eq!(c.config.value.u64_cell.cell, Cell { index: 2 });
    assert_eq!(c.config.value.u16_cells_le[0].cell, Cell { index: 3 });
    assert_eq!(c.config.value.u16_cells_le[3].cell, Cell { index: 6 });
    assert_eq!(c.config.value_is_i32.cell, Cell { index: 7 });
    assert_eq!(c.config.res.u64_cell.cell, Cell { index: 8 });
    assert_eq!(c.config.res_is_i32.cell, Cell { index: 13 });
    assert_eq!(c.config.flag_bit.cell, Cell { index: 14 });
    assert_eq!(c.config.flag_u16_rem.cell, Cell { index: 15 });
    assert_eq!(c.config.flag_u16_rem_diff.cell, Cell { index: 16 });
    assert_eq!(c.config.is_i32_wrap_i64.cell, Cell { index: 17 });
    assert_eq!(c.config.is_i64_extend_i32_u.cell, Cell { index: 18 });
    assert_eq!(c.config.is_i64_extend_i32_s.cell, Cell { index: 19 });
}

#[test]
fn configure_registers_six_constraints_and_two_lookups() {
    let c = circuit();
    let names: Vec<&str> = c.builder.constraints.iter().map(|g| g.name).collect();
    assert_eq!(
        names,
        vec![
            "op_conversion pick one",
            "op_conversion type matches op",
            "op_conversion i32_wrap_i64",
            "op_conversion flag bit",
            "i64_extend_i32_u",
            "i64_extend_i32_s",
        ]
    );
    let sizes: Vec<usize> = c.builder.constraints.iter().map(|g| g.polys.len()).collect();
    assert_eq!(sizes, vec![1, 4, 1, 2, 1, 1]);
    assert_eq!(c.builder.lookups.len(), 2);
    assert_eq!(c.builder.lookups[0].access, MemoryAccess::Read);
    assert_eq!(c.builder.lookups[1].access, MemoryAccess::Write);
    assert_eq!(c.config.memory_table_lookup_stack_read.lookup, 0);
    assert_eq!(c.config.memory_table_lookup_stack_write.lookup, 1);
}

#[test]
fn configure_writes_the_unsigned_extension_as_result_minus_operand() {
    let c = circuit();
    let expected = Expression::Product(
        Box::new(Expression::Query(Cell { index: 18 })),
        Box::new(Expression::Sum(
            Box::new(Expression::Query(Cell { index: 8 })),
            Box::new(Expression::Negated(Box::new(Expression::Query(Cell { index: 2 })))),
        )),
    );
    assert_eq!(c.builder.constraints[4].polys[0], expected);
}

#[test]
fn configure_after_another_module_starts_behind_it() {
    let mut allocator = EventTableCellAllocator::new();
    let common = EventTableCommonConfig {
        eid_cell: allocator.alloc_common_range_cell(),
        sp_cell: allocator.alloc_common_range_cell(),
    };
    let mut builder = ConstraintBuilder::new();
    let first = ConversionConfigBuilder::configure(&common, &mut allocator, &mut builder);
    let second = ConversionConfigBuilder::configure(&common, &mut allocator, &mut builder);
    assert_eq!(first.value.u64_cell.cell.index, 2);
    assert_eq!(second.value.u64_cell.cell.index, 20);
    assert_eq!(second.is_i64_extend_i32_s.cell.index, 37);
    assert_eq!(allocator.kinds.len(), 38);
    assert_eq!(builder.constraints.len(), 12);
    assert_eq!(second.memory_table_lookup_stack_read.lookup, 2);
    assert_eq!(second.memory_table_lookup_stack_write.lookup, 3);
}

#[test]
fn signed_extend_of_negative_sets_sign_bit_and_satisfies_constraints() {
    let c = circuit();
    let e = entry(StepInfo::I64ExtendI32 {
        value: 0x8000_0000u32 as i32,
        result: 0xFFFF_FFFF_8000_0000u64 as i64,
        sign: true,
    });
    let ctx = row(&c, &e);
    assert_eq!(ctx.get(c.config.flag_bit.cell), 1);
    assert_eq!(mode_bits(&c, &ctx), (0, 0, 1));
    assert_eq!(ctx.get(c.config.value.u64_cell.cell), 0x8000_0000);
    assert_eq!(ctx.get(c.config.res.u64_cell.cell), 0xFFFF_FFFF_8000_0000);
    assert_eq!(ctx.get(c.config.value_is_i32.cell), 1);
    assert_eq!(ctx.get(c.config.res_is_i32.cell), 0);
    assert_eq!(ctx.get(c.config.flag_u16_rem.cell), 0);
    assert_eq!(ctx.get(c.config.flag_u16_rem_diff.cell), 0x7fff);
    assert!(satisfied(&c, &ctx));
}

#[test]
fn signed_extend_of_zero_has_sign_bit_zero() {
    let c = circuit();
    let ctx = row(&c, &entry(StepInfo::I64ExtendI32 { value: 0, result: 0, sign: true }));
    assert_eq!(ctx.get(c.config.flag_bit.cell), 0);
    assert_eq!(ctx.get(c.config.res.u64_cell.cell), 0);
    assert_eq!(mode_bits(&c, &ctx), (0, 0, 1));
    assert!(satisfied(&c, &ctx));
}

#[test]
fn signed_extend_of_all_ones_pads_the_upper_half() {
    let c = circuit();
    let ctx = row(&c, &entry(StepInfo::I64ExtendI32 { value: -1, result: -1, sign: true }));
    assert_eq!(ctx.get(c.config.flag_bit.cell), 1);
    assert_eq!(ctx.get(c.config.value.u64_cell.cell), 0x0000_0000_FFFF_FFFF);
    assert_eq!(ctx.get(c.config.res.u64_cell.cell), 0xFFFF_FFFF_FFFF_FFFF);
    assert_eq!(ctx.get(c.config.flag_u16_rem.cell), 0x7fff);
    assert_eq!(ctx.get(c.config.flag_u16_rem_diff.cell), 0);
    assert!(satisfied(&c, &ctx));
}

#[test]
fn signed_extend_without_padding_is_refused_by_the_constraints() {
    let c = circuit();
    let ctx = row(
        &c,
        &entry(StepInfo::I64ExtendI32 { value: -1, result: 0x0000_0000_FFFF_FFFF, sign: true }),
    );
    assert_eq!(ctx.get(c.config.flag_bit.cell), 1);
    assert!(c.allocator.well_typed_on(&ctx));
    assert!(!c.builder.gates_hold_on(&ctx, &pasta()));
}

#[test]
fn unsigned_extend_of_all_ones_is_not_padded() {
    let c = circuit();
    let ctx = row(
        &c,
        &entry(StepInfo::I64ExtendI32 { value: -1, result: 0x0000_0000_FFFF_FFFF, sign: false }),
    );
    assert_eq!(ctx.get(c.config.res.u64_cell.cell), 0x0000_0000_FFFF_FFFF);
    assert_eq!(mode_bits(&c, &ctx), (0, 1, 0));
    assert_eq!(ctx.get(c.config.flag_bit.cell), 1);
    assert!(satisfied(&c, &ctx));
}

#[test]
fn unsigned_extend_with_padding_is_refused_by_the_constraints() {
    let c = circuit();
    let ctx = row(&c, &entry(StepInfo::I64ExtendI32 { value: -1, result: -1, sign: false }));
    assert!(!c.builder.gates_hold_on(&ctx, &pasta()));
}

#[test]
fn wrap_keeps_the_low_half() {
    let c = circuit();
    let ctx = row(&c, &entry(StepInfo::I32WrapI64 { value: 0x1_0000_0001, result: 1 }));
    assert_eq!(ctx.get(c.config.value.u64_cell.cell), 0x1_0000_0001);
    assert_eq!(ctx.get(c.config.res.u64_cell.cell), 0x0000_0001);
    assert_eq!(mode_bits(&c, &ctx), (1, 0, 0));
    assert_eq!(ctx.get(c.config.value_is_i32.cell), 0);
    assert_eq!(ctx.get(c.config.res_is_i32.cell), 1);
    assert_eq!(ctx.get(c.config.value.u16_cells_le[0].cell), 1);
    assert_eq!(ctx.get(c.config.value.u16_cells_le[1].cell), 0);
    assert_eq!(ctx.get(c.config.value.u16_cells_le[2].cell), 1);
    assert_eq!(ctx.get(c.config.value.u16_cells_le[3].cell), 0);
    assert!(satisfied(&c, &ctx));
}

#[test]
fn wrap_of_a_negative_number_keeps_its_low_bits() {
    let c = circuit();
    let value = 0xFEDC_BA98_8765_4321u64 as i64;
    let result = 0x8765_4321u32 as i32;
    let ctx = row(&c, &entry(StepInfo::I32WrapI64 { value, result }));
    assert_eq!(ctx.get(c.config.value.u64_cell.cell), 0xFEDC_BA98_8765_4321);
    assert_eq!(ctx.get(c.config.res.u64_cell.cell), 0x8765_4321);
    assert_eq!(ctx.get(c.config.value.u16_cells_le[0].cell), 0x4321);
    assert_eq!(ctx.get(c.config.value.u16_cells_le[1].cell), 0x8765);
    assert_eq!(ctx.get(c.config.value.u16_cells_le[2].cell), 0xBA98);
    assert_eq!(ctx.get(c.config.value.u16_cells_le[3].cell), 0xFEDC);
    assert_eq!(ctx.get(c.config.flag_bit.cell), 1);
    assert_eq!(ctx.get(c.config.flag_u16_rem.cell), 0x0765);
    assert_eq!(ctx.get(c.config.flag_u16_rem_diff.cell), 0x7fff - 0x0765);
    assert!(satisfied(&c, &ctx));
}

#[test]
fn wrap_with_swapped_halves_is_refused_by_the_constraints() {
    let c = circuit();
    let ctx = row(&c, &entry(StepInfo::I32WrapI64 { value: 0x0001_0002, result: 0x0002_0001 }));
    assert!(c.allocator.well_typed_on(&ctx));
    assert!(!c.builder.gates_hold_on(&ctx, &pasta()));
}

#[test]
fn assign_refuses_a_record_of_another_family() {
    let c = circuit();
    let mut ctx = Context::new();
    ctx.assign(Cell { index: 1 }, 5);
    let before = ctx.cells.clone();
    let outcome = c.config.assign(&mut ctx, &entry(StepInfo::I32Const { value: 3 }));
    assert_eq!(outcome, Err(Error::UnexpectedStep));
    assert_eq!(ctx.cells, before);
    assert_eq!(c.config.assign(&mut ctx, &entry(StepInfo::Drop)), Err(Error::UnexpectedStep));
    assert_eq!(
        c.config.assign(&mut ctx, &entry(StepInfo::I64Const { value: -1 })),
        Err(Error::UnexpectedStep)
    );
    assert_eq!(ctx.cells, before);
}

#[test]
fn assign_leaves_other_cells_alone() {
    let c = circuit();
    let mut ctx = Context::new();
    ctx.assign(Cell { index: 0 }, 11);
    ctx.assign(Cell { index: 1 }, 22);
    ctx.assign(Cell { index: 25 }, 33);
    c.config
        .assign(&mut ctx, &entry(StepInfo::I32WrapI64 { value: -1, result: -1 }))
        .unwrap();
    assert_eq!(ctx.get(Cell { index: 0 }), 11);
    assert_eq!(ctx.get(Cell { index: 1 }), 22);
    assert_eq!(ctx.get(Cell { index: 25 }), 33);
    assert_eq!(ctx.get(Cell { index: 1000 }), 0);
}

#[test]
fn assign_overwrites_the_mode_bits_of_an_earlier_row() {
    let c = circuit();
    let mut ctx = row(&c, &entry(StepInfo::I32WrapI64 { value: 5, result: 5 }));
    c.config
        .assign(&mut ctx, &entry(StepInfo::I64ExtendI32 { value: 5, result: 5, sign: false }))
        .unwrap();
    assert_eq!(mode_bits(&c, &ctx), (0, 1, 0));
    assert!(satisfied(&c, &ctx));
}

#[test]
fn exactly_one_mode_bit_is_set_for_each_conversion() {
    let c = circuit();
    let steps = [
        StepInfo::I32WrapI64 { value: 9, result: 9 },
        StepInfo::I64ExtendI32 { value: 9, result: 9, sign: false },
        StepInfo::I64ExtendI32 { value: 9, result: 9, sign: true },
    ];
    for step in steps {
        let ctx = row(&c, &entry(step));
        let (w, u, s) = mode_bits(&c, &ctx);
        assert_eq!(w + u + s, 1);
        assert!(satisfied(&c, &ctx));
    }
}

#[test]
fn two_mode_bits_are_refused_by_the_constraints() {
    let c = circuit();
    let mut ctx = row(&c, &entry(StepInfo::I64ExtendI32 { value: 9, result: 9, sign: false }));
    ctx.assign(c.config.is_i64_extend_i32_s.cell, 1);
    assert!(c.allocator.well_typed_on(&ctx));
    assert!(!c.builder.gates_hold_on(&ctx, &pasta()));
}

#[test]
fn no_mode_bit_is_refused_by_the_constraints() {
    let c = circuit();
    let mut ctx = row(&c, &entry(StepInfo::I64ExtendI32 { value: 9, result: 9, sign: false }));
    ctx.assign(c.config.is_i64_extend_i32_u.cell, 0);
    assert!(!c.builder.gates_hold_on(&ctx, &pasta()));
}

#[test]
fn a_wrong_result_is_refused_by_the_constraints() {
    let c = circuit();
    let mut ctx = row(&c, &entry(StepInfo::I32WrapI64 { value: 0x1_0000_0001, result: 1 }));
    c.config.res.assign(&mut ctx, 2);
    assert!(c.allocator.well_typed_on(&ctx));
    assert!(!c.builder.gates_hold_on(&ctx, &pasta()));
}

#[test]
fn a_wrong_width_is_refused_by_the_constraints() {
    let c = circuit();
    let mut ctx = row(&c, &entry(StepInfo::I32WrapI64 { value: 3, result: 3 }));
    ctx.assign(c.config.value_is_i32.cell, 1);
    assert!(c.allocator.well_typed_on(&ctx));
    assert!(!c.builder.gates_hold_on(&ctx, &pasta()));
}

#[test]
fn a_forged_sign_bit_is_refused_by_the_constraints() {
    let c = circuit();
    let mut ctx = row(&c, &entry(StepInfo::I64ExtendI32 { value: 9, result: 9, sign: true }));
    ctx.assign(c.config.flag_bit.cell, 1);
    c.config.res.assign(&mut ctx, 0xFFFF_FFFF_0000_0009);
    assert!(c.allocator.well_typed_on(&ctx));
    assert!(!c.builder.gates_hold_on(&ctx, &pasta()));
}

#[test]
fn a_limb_out_of_range_is_refused_by_the_cell_kinds() {
    let c = circuit();
    let mut ctx = row(&c, &entry(StepInfo::I32WrapI64 { value: 0x1_0000, result: 0x1_0000 }));
    ctx.assign(c.config.value.u16_cells_le[0].cell, 0x1_0000);
    ctx.assign(c.config.value.u16_cells_le[1].cell, 0);
    assert!(!c.allocator.well_typed_on(&ctx));
}

#[test]
fn a_mode_bit_of_two_is_refused_by_the_cell_kinds() {
    let c = circuit();
    let mut ctx = row(&c, &entry(StepInfo::I32WrapI64 { value: 1, result: 1 }));
    ctx.assign(c.config.is_i32_wrap_i64.cell, 2);
    assert!(!c.allocator.well_typed_on(&ctx));
}

#[test]
fn extract_sign_splits_the_upper_half() {
    assert_eq!(
        extract_sign(0),
        SignFlag { flag_bit: 0, flag_u16_rem: 0, flag_u16_rem_diff: 0x7fff }
    );
    assert_eq!(
        extract_sign(0xFFFF_FFFF),
        SignFlag { flag_bit: 1, flag_u16_rem: 0x7fff, flag_u16_rem_diff: 0 }
    );
    assert_eq!(
        extract_sign(0x8000_0000),
        SignFlag { flag_bit: 1, flag_u16_rem: 0, flag_u16_rem_diff: 0x7fff }
    );
    assert_eq!(
        extract_sign(0x7FFF_FFFF),
        SignFlag { flag_bit: 0, flag_u16_rem: 0x7fff, flag_u16_rem_diff: 0 }
    );
    assert_eq!(
        extract_sign(0x1234_5678),
        SignFlag { flag_bit: 0, flag_u16_rem: 0x1234, flag_u16_rem_diff: 0x6dcb }
    );
}

#[test]
fn extract_sign_agrees_with_the_shift_on_many_values() {
    let mut v: u32 = 1;
    for _ in 0..2000 {
        let flag = extract_sign(v);
        assert_eq!(flag.flag_bit, (v >> 31) & 1);
        assert_eq!(flag.flag_u16_rem + flag.flag_u16_rem_diff, (1 << 15) - 1);
        assert_eq!(flag.flag_bit * (1 << 15) + flag.flag_u16_rem, v >> 16);
        v = v.wrapping_mul(1664525).wrapping_add(1013904223);
    }
}

#[test]
fn encode_conversion_places_class_and_argument() {
    assert_eq!(encode_conversion(ConversionOp::I32WrapI64), 28u128 << 96);
    assert_eq!(encode_conversion(ConversionOp::I64ExtendI32s), (28u128 << 96) + (1u128 << 80));
    assert_eq!(encode_conversion(ConversionOp::I64ExtendI32u), (28u128 << 96) + (2u128 << 80));
    assert_eq!(
        encode_conversion(ConversionOp::I64ExtendI32u),
        0x001c_0002_0000_0000_0000_0000_0000
    );
}

#[test]
fn opcode_takes_the_encoding_of_the_active_conversion() {
    let c = circuit();
    let p = pasta();
    let opcode = c.config.opcode();
    let cases = [
        (StepInfo::I32WrapI64 { value: 9, result: 9 }, ConversionOp::I32WrapI64),
        (StepInfo::I64ExtendI32 { value: 9, result: 9, sign: false }, ConversionOp::I64ExtendI32u),
        (StepInfo::I64ExtendI32 { value: 9, result: 9, sign: true }, ConversionOp::I64ExtendI32s),
    ];
    for (step, op) in cases {
        let ctx = row(&c, &entry(step));
        assert_eq!(opcode.evaluate(&ctx, &p).to_u128(), Some(encode_conversion(op)));
    }
}

#[test]
fn opcode_is_zero_on_a_row_of_another_module() {
    let c = circuit();
    let ctx = Context::new();
    assert!(c.config.opcode().evaluate(&ctx, &pasta()).is_zero());
}

#[test]
fn mops_counts_one_write() {
    let c = circuit();
    assert_eq!(c.config.mops(), Some(Expression::Constant(1)));
    assert_eq!(
        c.config.memory_writing_ops(&entry(StepInfo::I32WrapI64 { value: 1, result: 1 })),
        1
    );
    assert_eq!(c.config.memory_writing_ops(&entry(StepInfo::Drop)), 1);
}

#[test]
fn lookups_ask_for_the_stack_slot_above_the_stack_pointer() {
    let c = circuit();
    let p = pasta();
    let e = EventTableEntry {
        eid: 41,
        sp: 4000,
        step_info: StepInfo::I64ExtendI32 { value: -2, result: -2, sign: true },
    };
    let ctx = row(&c, &e);
    let read = c.builder.lookups[0].request(&ctx, &p);
    assert_eq!(read.access, MemoryAccess::Read);
    assert_eq!(read.eid, 41);
    assert_eq!(read.location_type.to_u128(), Some(1));
    assert_eq!(read.offset.to_u128(), Some(4001));
    assert_eq!(read.is_i32.to_u128(), Some(1));
    assert_eq!(read.value.to_u128(), Some(0xFFFF_FFFE));
    assert_eq!(read.enable.to_u128(), Some(1));
    let write = c.builder.lookups[1].request(&ctx, &p);
    assert_eq!(write.access, MemoryAccess::Write);
    assert_eq!(write.eid, 41);
    assert_eq!(write.location_type.to_u128(), Some(1));
    assert_eq!(write.offset.to_u128(), Some(4001));
    assert_eq!(write.is_i32.to_u128(), Some(0));
    assert_eq!(write.value.to_u128(), Some(0xFFFF_FFFF_FFFF_FFFE));
    assert_eq!(write.enable.to_u128(), Some(1));
}

#[test]
fn step_info_reads_conversions_as_bits() {
    let wrap = StepInfo::I32WrapI64 { value: -1, result: -1 }.conversion().unwrap();
    assert_eq!(wrap.op, ConversionOp::I32WrapI64);
    assert_eq!(wrap.value, u64::MAX);
    assert_eq!(wrap.result, 0xFFFF_FFFF);
    let extend =
        StepInfo::I64ExtendI32 { value: i32::MIN, result: i64::MIN, sign: true }.conversion().unwrap();
    assert_eq!(extend.op, ConversionOp::I64ExtendI32s);
    assert_eq!(extend.value, 0x8000_0000);
    assert_eq!(extend.result, 0x8000_0000_0000_0000);
    assert_eq!(StepInfo::Drop.conversion(), None);
}

#[test]
fn common_cells_can_stand_anywhere() {
    let mut allocator = EventTableCellAllocator::new();
    let mut builder = ConstraintBuilder::new();
    let common = EventTableCommonConfig {
        eid_cell: AllocatedCommonRangeCell { cell: Cell { index: 500 } },
        sp_cell: AllocatedCommonRangeCell { cell: Cell { index: 501 } },
    };
    let config = ConversionConfigBuilder::configure(&common, &mut allocator, &mut builder);
    assert_eq!(config.value.u64_cell.cell.index, 0);
    assert_eq!(builder.lookups[0].eid, Cell { index: 500 });
}
