//! Polynomial expressions over the cells of one row of the constraint table.

use vstd::arithmetic::div_mod::{
    lemma_add_mod_noop, lemma_mod_add_multiples_vanish, lemma_mul_mod_noop, lemma_small_mod,
    lemma_sub_mod_noop,
};
use vstd::prelude::*;

verus! {

/// One addressable slot of a row of the constraint table.
#[derive(Clone, Copy, Debug, PartialEq, Eq)]
pub struct Cell {
    pub index: usize,
}

/// The value that a row holds at a position; positions past its end hold zero.
pub open spec fn read(row: Seq<nat>, index: int) -> nat {
    if 0 <= index < row.len() {
        row[index]
    } else {
        0
    }
}

/// The row that results from storing `value` at `index`, growing the row with
/// zeros where it is too short.
#[verifier::opaque]
pub open spec fn store(row: Seq<nat>, index: int, value: nat) -> Seq<nat> {
    Seq::new(
        if index < row.len() { row.len() } else { (index + 1) as nat },
        |i: int| if i == index { value } else { read(row, i) },
    )
}

/// A position of a row holds what was stored there last.
pub proof fn lemma_read_store(row: Seq<nat>, index: int, value: nat)
    requires
        0 <= index,
    ensures
        forall|at: int| #[trigger]
            read(store(row, index, value), at) == if at == index {
                value
            } else {
                read(row, at)
            },
{
    reveal(store);
}

/// The characteristic is large enough that every constant of a polynomial
/// and every 64-bit integer is a canonical element of the field: it is at
/// least 2^128.
pub open spec fn large_field(p: nat) -> bool {
    p >= 0x1_0000_0000_0000_0000_0000_0000_0000_0000
}

/// A polynomial in the cells of a row, with constant coefficients.
#[derive(Debug, PartialEq, Eq)]
pub enum Expression {
    /// A constant polynomial.
    Constant(u128),
    /// The value of a cell of the current row.
    Query(Cell),
    /// The additive inverse of a polynomial.
    Negated(Box<Expression>),
    /// The sum of two polynomials.
    Sum(Box<Expression>, Box<Expression>),
    /// The product of two polynomials.
    Product(Box<Expression>, Box<Expression>),
}

impl Expression {
    /// The integer that the polynomial takes on a row, before reduction.
    pub open spec fn value(self, row: Seq<nat>) -> int
        decreases self,
    {
        match self {
            Expression::Constant(c) => c as int,
            Expression::Query(cell) => read(row, cell.index as int) as int,
            Expression::Negated(e) => -e.value(row),
            Expression::Sum(a, b) => a.value(row) + b.value(row),
            Expression::Product(a, b) => a.value(row) * b.value(row),
        }
    }

    /// The field element that the polynomial takes on a row, in the field of
    /// characteristic `p`, as its canonical representative.
    pub open spec fn eval(self, row: Seq<nat>, p: nat) -> nat {
        (self.value(row) % (p as int)) as nat
    }

    /// The polynomial is zero on the row.
    pub open spec fn vanishes(self, row: Seq<nat>, p: nat) -> bool {
        self.eval(row, p) == 0
    }

    /// The polynomial `a + b`.
    pub open spec fn sum_of(a: Expression, b: Expression) -> Expression {
        Expression::Sum(Box::new(a), Box::new(b))
    }

    /// The polynomial `a - b`, held as `a + (-b)`.
    pub open spec fn difference_of(a: Expression, b: Expression) -> Expression {
        Expression::Sum(Box::new(a), Box::new(Expression::Negated(Box::new(b))))
    }

    /// The polynomial `a * b`.
    pub open spec fn product_of(a: Expression, b: Expression) -> Expression {
        Expression::Product(Box::new(a), Box::new(b))
    }

    /// The constant polynomial `c`.
    pub fn constant(c: u128) -> (r: Expression)
        ensures
            r == Expression::Constant(c),
    {
        Expression::Constant(c)
    }

    /// The polynomial `a + b`.
    #[verifier::when_used_as_spec(sum_of)]
    pub fn sum(a: Expression, b: Expression) -> (r: Expression)
        ensures
            r == Expression::sum_of(a, b),
    {
        Expression::Sum(Box::new(a), Box::new(b))
    }

    /// The polynomial `a - b`, held as `a + (-b)`.
    #[verifier::when_used_as_spec(difference_of)]
    pub fn difference(a: Expression, b: Expression) -> (r: Expression)
        ensures
            r == Expression::difference_of(a, b),
    {
        Expression::Sum(Box::new(a), Box::new(Expression::Negated(Box::new(b))))
    }

    /// The polynomial `a * b`.
    #[verifier::when_used_as_spec(product_of)]
    pub fn product(a: Expression, b: Expression) -> (r: Expression)
        ensures
            r == Expression::product_of(a, b),
    {
        Expression::Product(Box::new(a), Box::new(b))
    }
}

impl Cell {
    /// The polynomial that is the value of this cell.
    pub fn expr(&self) -> (r: Expression)
        ensures
            r == Expression::Query(*self),
    {
        Expression::Query(*self)
    }
}

/// The field value of a polynomial is computed in the field: that of a sum
/// is the sum of the field values, reduced; that of a product their
/// product, reduced; that of an additive inverse the inverse of the field
/// value.
pub proof fn lemma_eval_in_field(a: Expression, b: Expression, row: Seq<nat>, p: nat)
    requires
        p > 0,
    ensures
        a.eval(row, p) < p,
        Expression::sum_of(a, b).eval(row, p) == (a.eval(row, p) + b.eval(row, p)) % p,
        Expression::product_of(a, b).eval(row, p) == (a.eval(row, p) * b.eval(row, p)) % p,
        Expression::Negated(Box::new(a)).eval(row, p) == (-(a.eval(row, p) as int)) % (p as int),
        Expression::Negated(Box::new(a)).eval(row, p) == (p - a.eval(row, p)) % (p as int),
{
    let m = p as int;
    lemma_add_mod_noop(a.value(row), b.value(row), m);
    lemma_mul_mod_noop(a.value(row), b.value(row), m);
    lemma_sub_mod_noop(0, a.value(row), m);
    lemma_small_mod(0, p);
    lemma_mod_add_multiples_vanish(-(a.value(row) % m), m);
}

/// A polynomial that is zero in the field, and whose integer value is
/// smaller in size than the characteristic, is zero as an integer.
pub proof fn lemma_vanishes_small(e: Expression, row: Seq<nat>, p: nat)
    requires
        p > 0,
        e.vanishes(row, p),
        -(p as int) < e.value(row) < p as int,
    ensures
        e.value(row) == 0,
{
    let x = e.value(row);
    let m = p as int;
    if x > 0 {
        lemma_small_mod(x as nat, p);
    } else if x < 0 {
        lemma_mod_add_multiples_vanish(x, m);
        lemma_small_mod((x + m) as nat, p);
    }
}

/// A polynomial whose integer value is a canonical element of the field
/// takes that value in the field.
pub proof fn lemma_eval_small(e: Expression, row: Seq<nat>, p: nat)
    requires
        0 <= e.value(row) < p as int,
    ensures
        e.eval(row, p) == e.value(row),
{
    lemma_small_mod(e.value(row) as nat, p);
}

} // verus!
