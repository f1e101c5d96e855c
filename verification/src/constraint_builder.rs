//! The registry of named constraints and of lookups into the shared memory
//! table.

use crate::expression::{read, Cell, Expression};
use vstd::prelude::*;

verus! {

/// A named list of polynomials, each of which must be zero on every row.
#[derive(Debug)]
pub struct Constraint {
    pub name: &'static str,
    pub polys: Vec<Expression>,
}

/// What a `Constraint` stands for.
pub struct Gate {
    pub name: Seq<char>,
    pub polys: Seq<Expression>,
}

impl View for Constraint {
    type V = Gate;

    open spec fn view(&self) -> Gate {
        Gate { name: self.name@, polys: self.polys@ }
    }
}

impl Gate {
    /// Every polynomial of the constraint is zero on the row.
    pub open spec fn holds(self, row: Seq<nat>, p: nat) -> bool {
        forall|j: int| 0 <= j < self.polys.len() ==> (#[trigger] self.polys[j]).vanishes(row, p)
    }
}

/// Whether a memory access reads or writes.
#[derive(Clone, Copy, Debug, PartialEq, Eq)]
pub enum MemoryAccess {
    Read,
    Write,
}

/// One access as the shared memory table records it.
pub struct MemoryTableEntry {
    pub access: MemoryAccess,
    pub eid: nat,
    pub location_type: nat,
    pub offset: nat,
    pub is_i32: nat,
    pub value: nat,
}

/// What the memory table guarantees of each of its entries: the type tag is
/// a bit, the value is a 64-bit integer, and a value tagged as 32-bit fits
/// in 32 bits.
pub open spec fn table_well_typed(table: Set<MemoryTableEntry>) -> bool {
    forall|e: MemoryTableEntry| #[trigger]
        table.contains(e) ==> {
            &&& e.is_i32 <= 1
            &&& e.value < 0x1_0000_0000_0000_0000
            &&& e.is_i32 == 1 ==> e.value < 0x1_0000_0000
        }
}

/// A request that the access described by the expressions appear in the
/// shared memory table, at the execution id held in the cell `eid`, as
/// often as `enable` says.
#[derive(Debug)]
pub struct MemoryTableLookup {
    pub name: &'static str,
    pub access: MemoryAccess,
    pub eid: Cell,
    pub location_type: Expression,
    pub offset: Expression,
    pub is_i32: Expression,
    pub value: Expression,
    pub enable: Expression,
}

/// What a `MemoryTableLookup` stands for.
pub struct Lookup {
    pub name: Seq<char>,
    pub access: MemoryAccess,
    pub eid: Cell,
    pub location_type: Expression,
    pub offset: Expression,
    pub is_i32: Expression,
    pub value: Expression,
    pub enable: Expression,
}

impl View for MemoryTableLookup {
    type V = Lookup;

    open spec fn view(&self) -> Lookup {
        Lookup {
            name: self.name@,
            access: self.access,
            eid: self.eid,
            location_type: self.location_type,
            offset: self.offset,
            is_i32: self.is_i32,
            value: self.value,
            enable: self.enable,
        }
    }
}

impl Lookup {
    /// The access that the request describes on a row.
    pub open spec fn entry(self, row: Seq<nat>, p: nat) -> MemoryTableEntry {
        MemoryTableEntry {
            access: self.access,
            eid: read(row, self.eid.index as int),
            location_type: self.location_type.eval(row, p),
            offset: self.offset.eval(row, p),
            is_i32: self.is_i32.eval(row, p),
            value: self.value.eval(row, p),
        }
    }

    /// Where the request is enabled on the row, the table holds its access.
    pub open spec fn holds(self, row: Seq<nat>, p: nat, table: Set<MemoryTableEntry>) -> bool {
        self.enable.eval(row, p) != 0 ==> table.contains(self.entry(row, p))
    }
}

/// The constraints and lookups that the opcode modules of one circuit have
/// registered so far.
#[derive(Debug)]
pub struct ConstraintBuilder {
    pub constraints: Vec<Constraint>,
    pub lookups: Vec<MemoryTableLookup>,
}

impl ConstraintBuilder {
    /// The registered constraints, in the order of registration.
    pub open spec fn gates(&self) -> Seq<Gate> {
        Seq::new(self.constraints@.len(), |i: int| self.constraints@[i]@)
    }

    /// The registered lookups, in the order of registration.
    pub open spec fn requests(&self) -> Seq<Lookup> {
        Seq::new(self.lookups@.len(), |i: int| self.lookups@[i]@)
    }

    /// Every registered constraint is zero on the row.
    pub open spec fn gates_hold(&self, row: Seq<nat>, p: nat) -> bool {
        forall|i: int| 0 <= i < self.gates().len() ==> (#[trigger] self.gates()[i]).holds(row, p)
    }

    /// The memory table holds what every registered lookup asks for on the
    /// row.
    pub open spec fn lookups_hold(
        &self,
        row: Seq<nat>,
        p: nat,
        table: Set<MemoryTableEntry>,
    ) -> bool {
        forall|i: int|
            0 <= i < self.requests().len() ==> (#[trigger] self.requests()[i]).holds(
                row,
                p,
                table,
            )
    }

    /// The row satisfies every registered constraint and lookup.
    pub open spec fn satisfied(
        &self,
        row: Seq<nat>,
        p: nat,
        table: Set<MemoryTableEntry>,
    ) -> bool {
        self.gates_hold(row, p) && self.lookups_hold(row, p, table)
    }

    /// A registry that holds nothing.
    pub fn new() -> (builder: ConstraintBuilder)
        ensures
            builder.gates() == Seq::<Gate>::empty(),
            builder.requests() == Seq::<Lookup>::empty(),
    {
        let builder = ConstraintBuilder { constraints: Vec::new(), lookups: Vec::new() };
        assert(builder.gates() =~= Seq::<Gate>::empty());
        assert(builder.requests() =~= Seq::<Lookup>::empty());
        builder
    }

    /// Registers the polynomials `polys`, each required to be zero, under
    /// `name`.
    pub fn push(&mut self, name: &'static str, polys: Vec<Expression>)
        ensures
            final(self).gates() == old(self).gates().push(Gate { name: name@, polys: polys@ }),
            final(self).requests() == old(self).requests(),
    {
        self.constraints.push(Constraint { name, polys });
        assert(self.gates() =~= old(self).gates().push(Gate { name: name@, polys: polys@ }));
        assert(self.requests() =~= old(self).requests());
    }

    /// Registers a lookup into the memory table and returns its position
    /// among the lookups.
    pub fn push_lookup(&mut self, lookup: MemoryTableLookup) -> (position: usize)
        ensures
            position == old(self).requests().len(),
            final(self).requests() == old(self).requests().push(lookup@),
            final(self).gates() == old(self).gates(),
    {
        let position = self.lookups.len();
        self.lookups.push(lookup);
        assert(self.requests() =~= old(self).requests().push(lookup@));
        assert(self.gates() =~= old(self).gates());
        position
    }
}

} // verus!
