use etable_conversion::allocator::EventTableCellAllocator;
use etable_conversion::cell::Context;
use etable_conversion::constraint_builder::ConstraintBuilder;
use etable_conversion::etable::{
    EventTableCommonConfig, EventTableOpcodeConfig, EventTableOpcodeConfigBuilder,
};
use etable_conversion::expression::{Cell, Expression};
use etable_conversion::field::Modulus;
use etable_conversion::op_conversion::{ConversionConfig, ConversionConfigBuilder};
use etable_conversion::opcode::{encode_conversion, ConversionOp};
use etable_conversion::step::{EventTableEntry, StepInfo};
use halo2_proofs::circuit::{Layouter, SimpleFloorPlanner, Value};
use halo2_proofs::dev::MockProver;
use halo2_proofs::pasta::Fp;
use halo2_proofs::plonk::{
    Advice, Circuit, Column, ConstraintSystem, Error as PlonkError, Expression as Polynomial,
    Selector, VirtualCells,
};
use halo2_proofs::poly::Rotation;

#[derive(Clone)]
struct TableConfig {
    columns: Vec<Column<Advice>>,
    enabled: Selector,
    common: EventTableCommonConfig,
    conversion: ConversionConfig,
}

fn constant(c: u128) -> Fp {
    let shift = Fp::from(1u64 << 32);
    Fp::from((c >> 64) as u64) * shift * shift + Fp::from(c as u64)
}

fn lower(
    e: &Expression,
    meta: &mut VirtualCells<'_, Fp>,
    columns: &[Column<Advice>],
) -> Polynomial<Fp> {
    match e {
        Expression::Constant(c) => Polynomial::Constant(constant(*c)),
        Expression::Query(cell) => meta.query_advice(columns[cell.index], Rotation::cur()),
        Expression::Negated(a) => -lower(a, meta, columns),
        Expression::Sum(a, b) => lower(a, meta, columns) + lower(b, meta, columns),
        Expression::Product(a, b) => lower(a, meta, columns) * lower(b, meta, columns),
    }
}

struct RowCircuit {
    entry: Option<EventTableEntry>,
    tamper: Option<(Cell, u64)>,
}

impl Circuit<Fp> for RowCircuit {
    type Config = TableConfig;
    type FloorPlanner = SimpleFloorPlanner;

    fn without_witnesses(&self) -> Self {
        RowCircuit { entry: None, tamper: None }
    }

    fn configure(meta: &mut ConstraintSystem<Fp>) -> TableConfig {
        let mut allocator = EventTableCellAllocator::new();
        let common = EventTableCommonConfig {
            eid_cell: allocator.alloc_common_range_cell(),
            sp_cell: allocator.alloc_common_range_cell(),
        };
        let mut builder = ConstraintBuilder::new();
        let conversion = ConversionConfigBuilder::configure(&common, &mut allocator, &mut builder);
        let columns: Vec<Column<Advice>> =
            allocator.kinds.iter().map(|_| meta.advice_column()).collect();
        let enabled = meta.selector();
        for constraint in &builder.constraints {
            meta.create_gate(constraint.name, |meta| {
                let q = meta.query_selector(enabled);
                constraint
                    .polys
                    .iter()
                    .map(|p| q.clone() * lower(p, meta, &columns))
                    .collect::<Vec<Polynomial<Fp>>>()
            });
        }
        TableConfig { columns, enabled, common, conversion }
    }

    fn synthesize(
        &self,
        config: TableConfig,
        mut layouter: impl Layouter<Fp>,
    ) -> Result<(), PlonkError> {
        layouter.assign_region(
            || "row",
            |mut region| {
                config.enabled.enable(&mut region, 0)?;
                let mut ctx = Context::new();
                if let Some(entry) = &self.entry {
                    ctx.assign(config.common.eid_cell.cell, entry.eid as u64);
                    ctx.assign(config.common.sp_cell.cell, entry.sp as u64);
                    config.conversion.assign(&mut ctx, entry).unwrap();
                }
                if let Some((cell, value)) = self.tamper {
                    ctx.assign(cell, value);
                }
                for (index, column) in config.columns.iter().enumerate() {
                    let value = ctx.get(Cell { index });
                    region.assign_advice(|| "cell", *column, 0, || Value::known(Fp::from(value)))?;
                }
                Ok(())
            },
        )
    }
}

fn proves(step_info: StepInfo, tamper: Option<(Cell, u64)>) -> bool {
    let circuit = RowCircuit { entry: Some(EventTableEntry { eid: 3, sp: 9, step_info }), tamper };
    MockProver::run(5, &circuit, vec![]).unwrap().verify().is_ok()
}

#[test]
fn backend_accepts_the_witness_of_each_conversion() {
    assert!(proves(StepInfo::I32WrapI64 { value: 0x1_0000_0001, result: 1 }, None));
    assert!(proves(StepInfo::I32WrapI64 { value: -1, result: -1 }, None));
    assert!(proves(StepInfo::I64ExtendI32 { value: -1, result: 0xFFFF_FFFF, sign: false }, None));
    assert!(proves(StepInfo::I64ExtendI32 { value: -1, result: -1, sign: true }, None));
    assert!(proves(StepInfo::I64ExtendI32 { value: 0, result: 0, sign: true }, None));
    assert!(proves(
        StepInfo::I64ExtendI32 {
            value: 0x8000_0000u32 as i32,
            result: 0xFFFF_FFFF_8000_0000u64 as i64,
            sign: true
        },
        None
    ));
}

#[test]
fn backend_refuses_a_record_that_the_machine_cannot_produce() {
    assert!(!proves(StepInfo::I32WrapI64 { value: 0x1_0000_0001, result: 2 }, None));
    assert!(!proves(StepInfo::I64ExtendI32 { value: -1, result: -1, sign: false }, None));
    assert!(!proves(StepInfo::I64ExtendI32 { value: -1, result: 0xFFFF_FFFF, sign: true }, None));
    assert!(!proves(StepInfo::I32WrapI64 { value: 0x0001_0002, result: 0x0002_0001 }, None));
}

#[test]
fn backend_refuses_a_second_mode_bit() {
    // Positions 17 to 19 of the row hold the three mode bits.
    let step = StepInfo::I64ExtendI32 { value: 5, result: 5, sign: false };
    assert!(proves(step, Some((Cell { index: 18 }, 1))));
    assert!(!proves(step, Some((Cell { index: 17 }, 1))));
    assert!(!proves(step, Some((Cell { index: 19 }, 1))));
    assert!(!proves(step, Some((Cell { index: 18 }, 0))));
}

#[test]
fn backend_refuses_an_unassigned_row() {
    let circuit = RowCircuit { entry: None, tamper: None };
    assert!(MockProver::run(5, &circuit, vec![]).unwrap().verify().is_err());
}

#[test]
fn library_and_backend_agree_on_the_field() {
    // The characteristic of the backend's field, least significant limb first.
    let p = Modulus::from_limbs([0x992d30ed00000001, 0x224698fc094cf91b, 0, 0x4000000000000000])
        .unwrap();
    let minus_one = p.negation(&p.element(1));
    let square = p.product(&minus_one, &minus_one);
    assert_eq!(square.to_u128(), Some(1));
    assert_eq!(-Fp::from(1u64) * -Fp::from(1u64), Fp::from(1u64));
    // p - 1 is 2^32 * t with t odd in this field: -1 times 2^32 and plus 2^32 is zero.
    let shifted = p.product(&minus_one, &p.element(1u128 << 32));
    assert!(p.sum(&shifted, &p.element(1u128 << 32)).is_zero());
    let encoded = encode_conversion(ConversionOp::I64ExtendI32s);
    let twice = p.sum(&p.element(encoded), &p.element(encoded));
    assert_eq!(twice.to_u128(), Some(2 * encoded));
    assert_eq!(constant(encoded) + constant(encoded), constant(2 * encoded));
}
