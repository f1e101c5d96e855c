//! The opcode module of the integer conversions: wrapping a 64-bit integer
//! to 32 bits, and extending a 32-bit integer to 64 bits with or without
//! its sign.

use crate::allocator::{
    u64_cell_kinds, AllocatedMemoryTableLookupReadCell, AllocatedMemoryTableLookupWriteCell,
    CellKind, EventTableCellAllocator, U16_BOUND,
};
use crate::cell::{AllocatedBitCell, AllocatedCommonRangeCell, AllocatedU64Cell, Context};
use crate::constraint_builder::{
    ConstraintBuilder, Gate, Lookup, MemoryAccess, MemoryTableEntry,
};
use crate::etable::{
    Error, EventTableCommonConfig, EventTableOpcodeConfig, EventTableOpcodeConfigBuilder,
};
use crate::expression::{read, store, Expression};
use crate::opcode::{conversion_encoding, encode_conversion, ConversionOp};
use crate::step::{ConversionStep, EventTableEntry, LocationType, VarType};
use vstd::prelude::*;

verus! {

/// The cells of the conversion module and its two lookups into the memory
/// table.
#[derive(Clone, Copy, Debug, PartialEq, Eq)]
pub struct ConversionConfig {
    pub value: AllocatedU64Cell,
    pub value_is_i32: AllocatedBitCell,
    pub res: AllocatedU64Cell,
    pub res_is_i32: AllocatedBitCell,
    pub flag_bit: AllocatedBitCell,
    pub flag_u16_rem: AllocatedCommonRangeCell,
    pub flag_u16_rem_diff: AllocatedCommonRangeCell,
    pub is_i32_wrap_i64: AllocatedBitCell,
    pub is_i64_extend_i32_u: AllocatedBitCell,
    pub is_i64_extend_i32_s: AllocatedBitCell,
    pub memory_table_lookup_stack_read: AllocatedMemoryTableLookupReadCell,
    pub memory_table_lookup_stack_write: AllocatedMemoryTableLookupWriteCell,
}

/// Builds the conversion module of a circuit.
pub struct ConversionConfigBuilder {}

/// The padding that sign extension puts above a negative 32-bit integer.
pub const SIGN_PAD: u64 = 0xFFFF_FFFF_0000_0000;

/// The sign bit of a 32-bit integer and what proves it: the 15 bits under
/// the sign bit in the integer's upper half, and their complement.
#[derive(Clone, Copy, Debug, PartialEq, Eq)]
pub struct SignFlag {
    pub flag_bit: u32,
    pub flag_u16_rem: u32,
    pub flag_u16_rem_diff: u32,
}

/// Splits the upper half of a 32-bit integer into its top bit and the 15
/// bits below, and complements those.
pub fn extract_sign(value: u32) -> (r: SignFlag)
    ensures
        r.flag_bit == (value >> 31) & 1,
        r.flag_bit == value / 0x8000_0000,
        r.flag_u16_rem == (value / 0x1_0000) % 0x8000,
        r.flag_bit * 0x8000 + r.flag_u16_rem == value / 0x1_0000,
        r.flag_u16_rem + r.flag_u16_rem_diff == 0x7fff,
{
    let flag_u16: u32 = value >> 16;
    let flag_bit: u32 = flag_u16 >> 15;
    let flag_u16_rem: u32 = flag_u16 & 0x7fff;
    assert(value >> 16 == value / 0x1_0000) by (bit_vector);
    assert((value >> 16) >> 15 == (value >> 31) & 1) by (bit_vector);
    assert((value >> 16) >> 15 == value / 0x8000_0000) by (bit_vector);
    assert((value >> 16) & 0x7fff == (value / 0x1_0000) % 0x8000) by (bit_vector);
    assert(((value >> 16) >> 15) * 0x8000 + ((value >> 16) & 0x7fff) == value >> 16)
        by (bit_vector);
    let flag_u16_rem_diff: u32 = 0x7fff - flag_u16_rem;
    SignFlag { flag_bit, flag_u16_rem, flag_u16_rem_diff }
}

impl ConversionConfig {
    /// The module's cells stand in a row from `start` on, in the order of
    /// their allocation, and its lookups from `first_lookup` on.
    pub open spec fn laid_out_at(self, start: int, first_lookup: int) -> bool {
        &&& self.value.laid_out_at(start)
        &&& self.value_is_i32.cell.index == start + 5
        &&& self.res.laid_out_at(start + 6)
        &&& self.res_is_i32.cell.index == start + 11
        &&& self.flag_bit.cell.index == start + 12
        &&& self.flag_u16_rem.cell.index == start + 13
        &&& self.flag_u16_rem_diff.cell.index == start + 14
        &&& self.is_i32_wrap_i64.cell.index == start + 15
        &&& self.is_i64_extend_i32_u.cell.index == start + 16
        &&& self.is_i64_extend_i32_s.cell.index == start + 17
        &&& self.memory_table_lookup_stack_read.lookup == first_lookup
        &&& self.memory_table_lookup_stack_write.lookup == first_lookup + 1
    }

    /// The kinds of the module's cells, in the order of their allocation.
    pub open spec fn kinds() -> Seq<CellKind> {
        u64_cell_kinds() + seq![CellKind::Bit] + u64_cell_kinds() + seq![
            CellKind::Bit,
            CellKind::Bit,
            CellKind::Range(U16_BOUND),
            CellKind::Range(U16_BOUND),
            CellKind::Bit,
            CellKind::Bit,
            CellKind::Bit,
        ]
    }

    /// Exactly one conversion is active: the mode bits sum to 1.
    pub open spec fn pick_one(self) -> Gate {
        Gate {
            name: "op_conversion pick one"@,
            polys: seq![
                Expression::difference_of(
                    Expression::sum_of(
                        Expression::sum_of(
                            Expression::Query(self.is_i32_wrap_i64.cell),
                            Expression::Query(self.is_i64_extend_i32_u.cell),
                        ),
                        Expression::Query(self.is_i64_extend_i32_s.cell),
                    ),
                    Expression::Constant(1),
                ),
            ],
        }
    }

    /// The widths of operand and result are those of the active
    /// conversion.
    pub open spec fn type_matches_op(self) -> Gate {
        Gate {
            name: "op_conversion type matches op"@,
            polys: seq![
                Expression::product_of(
                    Expression::Query(self.is_i32_wrap_i64.cell),
                    Expression::Query(self.value_is_i32.cell),
                ),
                Expression::product_of(
                    Expression::Query(self.is_i32_wrap_i64.cell),
                    Expression::difference_of(
                        Expression::Query(self.res_is_i32.cell),
                        Expression::Constant(1),
                    ),
                ),
                Expression::product_of(
                    Expression::sum_of(
                        Expression::Query(self.is_i64_extend_i32_s.cell),
                        Expression::Query(self.is_i64_extend_i32_u.cell),
                    ),
                    Expression::difference_of(
                        Expression::Query(self.value_is_i32.cell),
                        Expression::Constant(1),
                    ),
                ),
                Expression::product_of(
                    Expression::sum_of(
                        Expression::Query(self.is_i64_extend_i32_s.cell),
                        Expression::Query(self.is_i64_extend_i32_u.cell),
                    ),
                    Expression::Query(self.res_is_i32.cell),
                ),
            ],
        }
    }

    /// Under the wrap, the result is the operand's two low limbs.
    pub open spec fn i32_wrap_i64(self) -> Gate {
        Gate {
            name: "op_conversion i32_wrap_i64"@,
            polys: seq![
                Expression::product_of(
                    Expression::Query(self.is_i32_wrap_i64.cell),
                    Expression::difference_of(
                        Expression::sum_of(
                            Expression::product_of(
                                Expression::Query(self.value.u16_cells_le[1].cell),
                                Expression::Constant(0x1_0000),
                            ),
                            Expression::Query(self.value.u16_cells_le[0].cell),
                        ),
                        Expression::Query(self.res.u64_cell.cell),
                    ),
                ),
            ],
        }
    }

    /// The operand's second limb is the sign bit times 2^15 plus a
    /// remainder, and the remainder and its complement sum to 2^15 - 1.
    pub open spec fn flag_bit_gate(self) -> Gate {
        Gate {
            name: "op_conversion flag bit"@,
            polys: seq![
                Expression::difference_of(
                    Expression::sum_of(
                        Expression::product_of(
                            Expression::Query(self.flag_bit.cell),
                            Expression::Constant(0x8000),
                        ),
                        Expression::Query(self.flag_u16_rem.cell),
                    ),
                    Expression::Query(self.value.u16_cells_le[1].cell),
                ),
                Expression::difference_of(
                    Expression::sum_of(
                        Expression::Query(self.flag_u16_rem.cell),
                        Expression::Query(self.flag_u16_rem_diff.cell),
                    ),
                    Expression::Constant(0x7fff),
                ),
            ],
        }
    }

    /// Under the unsigned extension, the result is the operand.
    pub open spec fn i64_extend_i32_u(self) -> Gate {
        Gate {
            name: "i64_extend_i32_u"@,
            polys: seq![
                Expression::product_of(
                    Expression::Query(self.is_i64_extend_i32_u.cell),
                    Expression::difference_of(
                        Expression::Query(self.res.u64_cell.cell),
                        Expression::Query(self.value.u64_cell.cell),
                    ),
                ),
            ],
        }
    }

    /// Under the signed extension, the result is the operand plus the sign
    /// bit times the padding.
    pub open spec fn i64_extend_i32_s(self) -> Gate {
        Gate {
            name: "i64_extend_i32_s"@,
            polys: seq![
                Expression::product_of(
                    Expression::Query(self.is_i64_extend_i32_s.cell),
                    Expression::difference_of(
                        Expression::sum_of(
                            Expression::product_of(
                                Expression::Query(self.flag_bit.cell),
                                Expression::Constant(SIGN_PAD as u128),
                            ),
                            Expression::Query(self.value.u64_cell.cell),
                        ),
                        Expression::Query(self.res.u64_cell.cell),
                    ),
                ),
            ],
        }
    }

    /// The constraints that the module registers, in their order.
    pub open spec fn gates(self) -> Seq<Gate> {
        seq![
            self.pick_one(),
            self.type_matches_op(),
            self.i32_wrap_i64(),
            self.flag_bit_gate(),
            self.i64_extend_i32_u(),
            self.i64_extend_i32_s(),
        ]
    }

    /// The operand is read once from the stack slot above the stack
    /// pointer, at the row's execution id, with the operand's width.
    pub open spec fn stack_read(self, common: EventTableCommonConfig) -> Lookup {
        Lookup {
            name: "op_conversion stack read"@,
            access: MemoryAccess::Read,
            eid: common.eid_cell.cell,
            location_type: Expression::Constant(LocationType::Stack.code_of() as u128),
            offset: Expression::sum_of(
                Expression::Query(common.sp_cell.cell),
                Expression::Constant(1),
            ),
            is_i32: Expression::Query(self.value_is_i32.cell),
            value: Expression::Query(self.value.u64_cell.cell),
            enable: Expression::Constant(1),
        }
    }

    /// The result is written once to the same stack slot, with the
    /// result's width.
    pub open spec fn stack_write(self, common: EventTableCommonConfig) -> Lookup {
        Lookup {
            name: "op_conversion stack write"@,
            access: MemoryAccess::Write,
            eid: common.eid_cell.cell,
            location_type: Expression::Constant(LocationType::Stack.code_of() as u128),
            offset: Expression::sum_of(
                Expression::Query(common.sp_cell.cell),
                Expression::Constant(1),
            ),
            is_i32: Expression::Query(self.res_is_i32.cell),
            value: Expression::Query(self.res.u64_cell.cell),
            enable: Expression::Constant(1),
        }
    }

    /// The lookups that the module registers, in their order.
    pub open spec fn requests(self, common: EventTableCommonConfig) -> Seq<Lookup> {
        seq![self.stack_read(common), self.stack_write(common)]
    }

    /// The polynomial that takes, on a row of the module, the encoding of
    /// the active conversion.
    pub open spec fn opcode_expr(self) -> Expression {
        Expression::sum_of(
            Expression::sum_of(
                Expression::product_of(
                    Expression::Query(self.is_i32_wrap_i64.cell),
                    Expression::Constant(conversion_encoding(ConversionOp::I32WrapI64) as u128),
                ),
                Expression::product_of(
                    Expression::Query(self.is_i64_extend_i32_s.cell),
                    Expression::Constant(
                        conversion_encoding(ConversionOp::I64ExtendI32s) as u128,
                    ),
                ),
            ),
            Expression::product_of(
                Expression::Query(self.is_i64_extend_i32_u.cell),
                Expression::Constant(conversion_encoding(ConversionOp::I64ExtendI32u) as u128),
            ),
        )
    }

    /// The row after the witness of one conversion is written into it: the
    /// mode bit of the conversion is 1 and the other two are 0; the sign
    /// bit, its remainder and the complement are those of the low 32 bits
    /// of the operand; operand and result stand with their limbs and their
    /// widths.
    #[verifier::opaque]
    pub open spec fn witness(self, row: Seq<nat>, step: ConversionStep) -> Seq<nat> {
        let low = (step.value as nat) % 0x1_0000_0000;
        let r = store(
            row,
            self.is_i32_wrap_i64.cell.index as int,
            if step.op == ConversionOp::I32WrapI64 { 1nat } else { 0nat },
        );
        let r = store(
            r,
            self.is_i64_extend_i32_u.cell.index as int,
            if step.op == ConversionOp::I64ExtendI32u { 1nat } else { 0nat },
        );
        let r = store(
            r,
            self.is_i64_extend_i32_s.cell.index as int,
            if step.op == ConversionOp::I64ExtendI32s { 1nat } else { 0nat },
        );
        let r = store(r, self.flag_bit.cell.index as int, low / 0x8000_0000);
        let r = store(r, self.flag_u16_rem.cell.index as int, (low / 0x1_0000) % 0x8000);
        let r = store(
            r,
            self.flag_u16_rem_diff.cell.index as int,
            (0x7fff - (low / 0x1_0000) % 0x8000) as nat,
        );
        let r = self.value.assigned(r, step.value);
        let r = self.res.assigned(r, step.result);
        let r = store(
            r,
            self.value_is_i32.cell.index as int,
            if step.value_type.is_i32_spec() { 1nat } else { 0nat },
        );
        store(
            r,
            self.res_is_i32.cell.index as int,
            if step.result_type.is_i32_spec() { 1nat } else { 0nat },
        )
    }

    /// The conversion whose mode bit is 1 on the row, where exactly one
    /// mode bit is 1 and the other two are 0.
    pub open spec fn active_op(self, row: Seq<nat>) -> Option<ConversionOp> {
        let wrap = read(row, self.is_i32_wrap_i64.cell.index as int);
        let extend_u = read(row, self.is_i64_extend_i32_u.cell.index as int);
        let extend_s = read(row, self.is_i64_extend_i32_s.cell.index as int);
        if wrap == 1 && extend_u == 0 && extend_s == 0 {
            Some(ConversionOp::I32WrapI64)
        } else if wrap == 0 && extend_u == 1 && extend_s == 0 {
            Some(ConversionOp::I64ExtendI32u)
        } else if wrap == 0 && extend_u == 0 && extend_s == 1 {
            Some(ConversionOp::I64ExtendI32s)
        } else {
            None
        }
    }

    /// The operand that the row holds.
    pub open spec fn operand(self, row: Seq<nat>) -> nat {
        read(row, self.value.u64_cell.cell.index as int)
    }

    /// The result that the row holds.
    pub open spec fn result(self, row: Seq<nat>) -> nat {
        read(row, self.res.u64_cell.cell.index as int)
    }

    /// The read of the operand that the row claims of the memory table.
    pub open spec fn read_access(
        self,
        common: EventTableCommonConfig,
        row: Seq<nat>,
        p: nat,
    ) -> MemoryTableEntry {
        MemoryTableEntry {
            access: MemoryAccess::Read,
            eid: read(row, common.eid_cell.cell.index as int),
            location_type: LocationType::Stack.code_of(),
            offset: (((read(row, common.sp_cell.cell.index as int) + 1) as int) % (p as int)) as nat,
            is_i32: read(row, self.value_is_i32.cell.index as int),
            value: self.operand(row),
        }
    }

    /// The write of the result that the row claims of the memory table.
    pub open spec fn write_access(
        self,
        common: EventTableCommonConfig,
        row: Seq<nat>,
        p: nat,
    ) -> MemoryTableEntry {
        MemoryTableEntry {
            access: MemoryAccess::Write,
            eid: read(row, common.eid_cell.cell.index as int),
            location_type: LocationType::Stack.code_of(),
            offset: (((read(row, common.sp_cell.cell.index as int) + 1) as int) % (p as int)) as nat,
            is_i32: read(row, self.res_is_i32.cell.index as int),
            value: self.result(row),
        }
    }

    /// The read of the operand that an executed conversion made.
    pub open spec fn executed_read(entry: EventTableEntry, step: ConversionStep) -> MemoryTableEntry {
        MemoryTableEntry {
            access: MemoryAccess::Read,
            eid: entry.eid as nat,
            location_type: LocationType::Stack.code_of(),
            offset: (entry.sp + 1) as nat,
            is_i32: if step.value_type.is_i32_spec() { 1nat } else { 0nat },
            value: step.value as nat,
        }
    }

    /// The write of the result that an executed conversion made.
    pub open spec fn executed_write(
        entry: EventTableEntry,
        step: ConversionStep,
    ) -> MemoryTableEntry {
        MemoryTableEntry {
            access: MemoryAccess::Write,
            eid: entry.eid as nat,
            location_type: LocationType::Stack.code_of(),
            offset: (entry.sp + 1) as nat,
            is_i32: if step.result_type.is_i32_spec() { 1nat } else { 0nat },
            value: step.result as nat,
        }
    }

    /// The cell at `index` is one of the module's, which stand from `start`
    /// on.
    pub open spec fn owns(start: int, index: int) -> bool {
        start <= index < start + 18
    }

    /// The module is what `configure` makes of an allocator and a
    /// constraint builder: its cells are the next 18 of the allocator, and
    /// its constraints and lookups the next of the builder.
    pub open spec fn configured(
        self,
        common: EventTableCommonConfig,
        allocator_before: EventTableCellAllocator,
        allocator: EventTableCellAllocator,
        builder_before: ConstraintBuilder,
        builder: ConstraintBuilder,
    ) -> bool {
        &&& self.laid_out_at(
            allocator_before.kinds@.len() as int,
            builder_before.requests().len() as int,
        )
        &&& allocator.kinds@ == allocator_before.kinds@ + Self::kinds()
        &&& builder.gates() == builder_before.gates() + self.gates()
        &&& builder.requests() == builder_before.requests() + self.requests(common)
    }
}

impl EventTableOpcodeConfigBuilder for ConversionConfigBuilder {
    type Config = ConversionConfig;

    /// Allocates the cells of the conversion module and registers its
    /// constraints and lookups.
    fn configure(
        common_config: &EventTableCommonConfig,
        allocator: &mut EventTableCellAllocator,
        constraint_builder: &mut ConstraintBuilder,
    ) -> (config: ConversionConfig)
        ensures
            config.configured(
                *common_config,
                *old(allocator),
                *final(allocator),
                *old(constraint_builder),
                *final(constraint_builder),
            ),
    {
        let value = allocator.alloc_u64_cell();
        let value_is_i32 = allocator.alloc_bit_cell();
        let res = allocator.alloc_u64_cell();
        let res_is_i32 = allocator.alloc_bit_cell();

        let flag_bit = allocator.alloc_bit_cell();
        let flag_u16_rem = allocator.alloc_common_range_cell();
        let flag_u16_rem_diff = allocator.alloc_common_range_cell();

        let is_i32_wrap_i64 = allocator.alloc_bit_cell();
        let is_i64_extend_i32_u = allocator.alloc_bit_cell();
        let is_i64_extend_i32_s = allocator.alloc_bit_cell();
        assert(allocator.kinds@ =~= old(allocator).kinds@ + ConversionConfig::kinds());

        let pick_one = vec![
            Expression::difference(
                Expression::sum(
                    Expression::sum(is_i32_wrap_i64.expr(), is_i64_extend_i32_u.expr()),
                    is_i64_extend_i32_s.expr(),
                ),
                Expression::constant(1),
            ),
        ];
        let ghost pick_one_polys = pick_one@;
        constraint_builder.push("op_conversion pick one", pick_one);

        let type_matches_op = vec![
            Expression::product(is_i32_wrap_i64.expr(), value_is_i32.expr()),
            Expression::product(
                is_i32_wrap_i64.expr(),
                Expression::difference(res_is_i32.expr(), Expression::constant(1)),
            ),
            Expression::product(
                Expression::sum(is_i64_extend_i32_s.expr(), is_i64_extend_i32_u.expr()),
                Expression::difference(value_is_i32.expr(), Expression::constant(1)),
            ),
            Expression::product(
                Expression::sum(is_i64_extend_i32_s.expr(), is_i64_extend_i32_u.expr()),
                res_is_i32.expr(),
            ),
        ];
        let ghost type_matches_op_polys = type_matches_op@;
        constraint_builder.push("op_conversion type matches op", type_matches_op);

        let i32_wrap_i64 = vec![
            Expression::product(
                is_i32_wrap_i64.expr(),
                Expression::difference(
                    Expression::sum(
                        Expression::product(
                            value.u16_cells_le[1].expr(),
                            Expression::constant(0x1_0000),
                        ),
                        value.u16_cells_le[0].expr(),
                    ),
                    res.u64_cell.expr(),
                ),
            ),
        ];
        let ghost i32_wrap_i64_polys = i32_wrap_i64@;
        constraint_builder.push("op_conversion i32_wrap_i64", i32_wrap_i64);

        let flag_bit_gate = vec![
            Expression::difference(
                Expression::sum(
                    Expression::product(flag_bit.expr(), Expression::constant(0x8000)),
                    flag_u16_rem.expr(),
                ),
                value.u16_cells_le[1].expr(),
            ),
            Expression::difference(
                Expression::sum(flag_u16_rem.expr(), flag_u16_rem_diff.expr()),
                Expression::constant(0x7fff),
            ),
        ];
        let ghost flag_bit_gate_polys = flag_bit_gate@;
        constraint_builder.push("op_conversion flag bit", flag_bit_gate);

        let i64_extend_i32_u = vec![
            Expression::product(
                is_i64_extend_i32_u.expr(),
                Expression::difference(res.u64_cell.expr(), value.u64_cell.expr()),
            ),
        ];
        let ghost i64_extend_i32_u_polys = i64_extend_i32_u@;
        constraint_builder.push("i64_extend_i32_u", i64_extend_i32_u);

        let pad = Expression::product(flag_bit.expr(), Expression::constant(SIGN_PAD as u128));
        let i64_extend_i32_s = vec![
            Expression::product(
                is_i64_extend_i32_s.expr(),
                Expression::difference(
                    Expression::sum(pad, value.u64_cell.expr()),
                    res.u64_cell.expr(),
                ),
            ),
        ];
        let ghost i64_extend_i32_s_polys = i64_extend_i32_s@;
        constraint_builder.push("i64_extend_i32_s", i64_extend_i32_s);

        let eid = common_config.eid_cell;
        let sp = common_config.sp_cell;

        let memory_table_lookup_stack_read = allocator.alloc_memory_table_lookup_read_cell(
            "op_conversion stack read",
            constraint_builder,
            eid,
            Expression::constant(LocationType::Stack.code() as u128),
            Expression::sum(sp.expr(), Expression::constant(1)),
            value_is_i32.expr(),
            value.u64_cell.expr(),
            Expression::constant(1),
        );

        let memory_table_lookup_stack_write = allocator.alloc_memory_table_lookup_write_cell(
            "op_conversion stack write",
            constraint_builder,
            eid,
            Expression::constant(LocationType::Stack.code() as u128),
            Expression::sum(sp.expr(), Expression::constant(1)),
            res_is_i32.expr(),
            res.u64_cell.expr(),
            Expression::constant(1),
        );

        let config = ConversionConfig {
            value,
            value_is_i32,
            res,
            res_is_i32,
            flag_bit,
            flag_u16_rem,
            flag_u16_rem_diff,
            is_i32_wrap_i64,
            is_i64_extend_i32_u,
            is_i64_extend_i32_s,
            memory_table_lookup_stack_read,
            memory_table_lookup_stack_write,
        };
        assert(pick_one_polys =~= config.pick_one().polys);
        assert(type_matches_op_polys =~= config.type_matches_op().polys);
        assert(i32_wrap_i64_polys =~= config.i32_wrap_i64().polys);
        assert(flag_bit_gate_polys =~= config.flag_bit_gate().polys);
        assert(i64_extend_i32_u_polys =~= config.i64_extend_i32_u().polys);
        assert(i64_extend_i32_s_polys =~= config.i64_extend_i32_s().polys);
        assert(constraint_builder.gates() =~= old(constraint_builder).gates() + config.gates());
        assert(constraint_builder.requests() =~= old(constraint_builder).requests()
            + config.requests(*common_config));
        config
    }
}

impl EventTableOpcodeConfig for ConversionConfig {
    /// The records of the three integer conversions.
    open spec fn accepts(&self, entry: EventTableEntry) -> bool {
        entry.step_info.conversion_of() is Some
    }

    /// The polynomial that identifies the instruction of a row: each mode
    /// bit times the encoding of its conversion.
    fn opcode(&self) -> (r: Expression)
        ensures
            r == self.opcode_expr(),
    {
        Expression::sum(
            Expression::sum(
                Expression::product(
                    self.is_i32_wrap_i64.expr(),
                    Expression::constant(encode_conversion(ConversionOp::I32WrapI64)),
                ),
                Expression::product(
                    self.is_i64_extend_i32_s.expr(),
                    Expression::constant(encode_conversion(ConversionOp::I64ExtendI32s)),
                ),
            ),
            Expression::product(
                self.is_i64_extend_i32_u.expr(),
                Expression::constant(encode_conversion(ConversionOp::I64ExtendI32u)),
            ),
        )
    }

    /// Writes the witness of one executed conversion into the row. A
    /// record of another instruction family is refused and the row left
    /// as it was.
    fn assign(&self, ctx: &mut Context, entry: &EventTableEntry) -> (r: Result<(), Error>)
        ensures
            match entry.step_info.conversion_of() {
                Some(step) => r is Ok && final(ctx)@ == self.witness(old(ctx)@, step),
                None => r == Err::<(), Error>(Error::UnexpectedStep) && final(ctx)@ == old(ctx)@,
            },
    {
        let step = match entry.step_info.conversion() {
            Some(step) => step,
            None => {
                return Err(Error::UnexpectedStep);
            },
        };
        proof {
            reveal(ConversionConfig::witness);
        }
        self.is_i32_wrap_i64.assign(ctx, matches!(step.op, ConversionOp::I32WrapI64));
        self.is_i64_extend_i32_u.assign(ctx, matches!(step.op, ConversionOp::I64ExtendI32u));
        self.is_i64_extend_i32_s.assign(ctx, matches!(step.op, ConversionOp::I64ExtendI32s));

        let flag = extract_sign((step.value % 0x1_0000_0000) as u32);
        self.flag_bit.assign(ctx, flag.flag_bit == 1);
        self.flag_u16_rem.assign_u32(ctx, flag.flag_u16_rem);
        self.flag_u16_rem_diff.assign_u32(ctx, flag.flag_u16_rem_diff);

        self.value.assign(ctx, step.value);
        self.res.assign(ctx, step.result);
        self.value_is_i32.assign(ctx, step.value_type.is_i32());
        self.res_is_i32.assign(ctx, step.result_type.is_i32());
        Ok(())
    }

    /// The polynomial that counts the memory accesses of a row of the
    /// module that write: the one write of the result.
    fn mops(&self) -> (r: Option<Expression>)
        ensures
            r == Some(Expression::Constant(1)),
    {
        Some(Expression::constant(1))
    }

    /// The number of memory accesses of the instruction that write: the
    /// one write of the result.
    fn memory_writing_ops(&self, entry: &EventTableEntry) -> (n: u32)
        ensures
            n == 1,
    {
        1
    }
}

} // verus!
