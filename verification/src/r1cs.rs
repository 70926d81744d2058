//! Rank-1 constraint systems over the scalar field.
//!
//! A circuit describes itself to a [`ConstraintSystem`]: it allocates its
//! variables, public, committed and private, and enforces constraints
//! `<a, z> * <b, z> = <c, z>` over them. [`ConstraintSystem::finalize`]
//! freezes the system into [`ConstraintMatrices`], whose columns are the
//! constant one, the public inputs, the committed witnesses and the private
//! witnesses, in this order.
use crate::error::SynthesisError;
use crate::field::{fr_modulus, Fr};
use vstd::prelude::*;

verus! {

/// A variable of a constraint system, by its kind and its place among the
/// variables of that kind.
#[derive(Clone, Copy, Debug, PartialEq, Eq)]
pub enum Variable {
    /// The constant one.
    One,
    /// A public input.
    Public(usize),
    /// A witness that the proof commits to.
    Committed(usize),
    /// A witness that stays private.
    Private(usize),
}

/// The numbers of variables and constraints of a circuit.
#[derive(Clone, Copy, Debug, PartialEq, Eq, Structural)]
pub struct Shape {
    pub public: usize,
    pub committed: usize,
    pub private: usize,
    pub constraints: usize,
}

impl Shape {
    /// The number of columns: the constant and every variable.
    pub open spec fn num_variables(self) -> nat {
        (1 + self.public + self.committed + self.private) as nat
    }

    /// The number of columns that the verifier accounts for: the constant,
    /// the public inputs and the committed witnesses.
    pub open spec fn num_instance(self) -> nat {
        (1 + self.public + self.committed) as nat
    }

    /// The column of a variable.
    pub open spec fn column(self, v: Variable) -> nat {
        match v {
            Variable::One => 0,
            Variable::Public(i) => (1 + i) as nat,
            Variable::Committed(i) => (1 + self.public + i) as nat,
            Variable::Private(i) => (1 + self.public + self.committed + i) as nat,
        }
    }

    /// Whether a variable has been allocated.
    pub open spec fn holds(self, v: Variable) -> bool {
        match v {
            Variable::One => true,
            Variable::Public(i) => i < self.public,
            Variable::Committed(i) => i < self.committed,
            Variable::Private(i) => i < self.private,
        }
    }
}

/// The inner product of the first `n` terms of a row with an assignment, in
/// the field.
pub open spec fn row_value(row: Seq<(Fr, usize)>, z: Seq<Fr>, n: nat) -> nat
    decreases n,
{
    if n == 0 {
        0
    } else {
        (row_value(row, z, (n - 1) as nat) + row[n - 1].0@ * z[row[n - 1].1 as int]@)
            % fr_modulus()
    }
}

/// The inner product of a whole row with an assignment.
pub open spec fn row_product(row: Seq<(Fr, usize)>, z: Seq<Fr>) -> nat {
    row_value(row, z, row.len())
}

/// Whether every term of a row names a column below `columns`.
pub open spec fn row_in_range(row: Seq<(Fr, usize)>, columns: nat) -> bool {
    forall|k: int| 0 <= k < row.len() ==> (#[trigger] row[k]).1 < columns
}

/// Whether every row names columns below `columns` alone.
pub open spec fn all_rows_in_range(rows: Seq<Vec<(Fr, usize)>>, columns: nat) -> bool {
    forall|i: int| 0 <= i < rows.len() ==> row_in_range(#[trigger] rows[i]@, columns)
}

/// The number of columns of a circuit with so many variables of each kind,
/// where it fits the machine.
pub fn column_count(public: usize, committed: usize, private: usize) -> (r: Option<usize>)
    ensures
        r == (if 1 + public + committed + private <= usize::MAX {
            Some((1 + public + committed + private) as usize)
        } else {
            None::<usize>
        }),
{
    if public >= usize::MAX {
        return None;
    }
    let one: usize = 1 + public;
    if committed > usize::MAX - one {
        return None;
    }
    let two: usize = one + committed;
    if private > usize::MAX - two {
        return None;
    }
    Some(two + private)
}

/// Whether every term of the row names a column below `columns`.
pub fn row_is_in_range(row: &Vec<(Fr, usize)>, columns: usize) -> (ok: bool)
    ensures
        ok == row_in_range(row@, columns as nat),
{
    let mut k: usize = 0;
    while k < row.len()
        invariant
            k <= row.len(),
            forall|j: int| 0 <= j < k ==> (#[trigger] row@[j]).1 < columns,
        decreases row.len() - k,
    {
        if row[k].1 >= columns {
            return false;
        }
        k += 1;
    }
    true
}

/// Whether every row names columns below `columns` alone.
pub fn rows_in_range(rows: &Vec<Vec<(Fr, usize)>>, columns: usize) -> (ok: bool)
    ensures
        ok == all_rows_in_range(rows@, columns as nat),
{
    let mut i: usize = 0;
    while i < rows.len()
        invariant
            i <= rows.len(),
            forall|j: int| 0 <= j < i ==> row_in_range(#[trigger] rows@[j]@, columns as nat),
        decreases rows.len() - i,
    {
        if !row_is_in_range(&rows[i], columns) {
            return false;
        }
        i += 1;
    }
    true
}

/// The three matrices of a frozen constraint system, row by row, each row a
/// list of coefficients with their columns.
#[derive(Clone, Debug, PartialEq, Eq)]
pub struct ConstraintMatrices {
    pub num_public: usize,
    pub num_committed: usize,
    pub num_private: usize,
    pub a: Vec<Vec<(Fr, usize)>>,
    pub b: Vec<Vec<(Fr, usize)>>,
    pub c: Vec<Vec<(Fr, usize)>>,
}

impl ConstraintMatrices {
    /// The shape of the circuit that the matrices came from.
    pub open spec fn shape(&self) -> Shape {
        Shape {
            public: self.num_public,
            committed: self.num_committed,
            private: self.num_private,
            constraints: self.a.len(),
        }
    }

    /// The three matrices have the same number of rows, the number of columns
    /// fits the machine, and every term names a column.
    pub open spec fn well_formed(&self) -> bool {
        &&& self.a.len() == self.b.len()
        &&& self.a.len() == self.c.len()
        &&& self.shape().num_variables() <= usize::MAX
        &&& forall|i: int|
            0 <= i < self.a.len() ==> row_in_range(
                #[trigger] self.a[i]@,
                self.shape().num_variables(),
            )
        &&& forall|i: int|
            0 <= i < self.b.len() ==> row_in_range(
                #[trigger] self.b[i]@,
                self.shape().num_variables(),
            )
        &&& forall|i: int|
            0 <= i < self.c.len() ==> row_in_range(
                #[trigger] self.c[i]@,
                self.shape().num_variables(),
            )
    }

    /// Whether constraint `i` holds of an assignment: the product of the
    /// first two inner products is the third.
    pub open spec fn constraint_holds(&self, i: int, z: Seq<Fr>) -> bool {
        (row_product(self.a[i]@, z) * row_product(self.b[i]@, z)) % fr_modulus() == row_product(
            self.c[i]@,
            z,
        )
    }

    /// Whether every constraint holds of an assignment.
    pub open spec fn satisfied_by(&self, z: Seq<Fr>) -> bool {
        forall|i: int| 0 <= i < self.a.len() ==> self.constraint_holds(i, z)
    }

    /// The number of columns.
    pub fn num_variables(&self) -> (n: usize)
        requires
            self.well_formed(),
        ensures
            n == self.shape().num_variables(),
    {
        1 + self.num_public + self.num_committed + self.num_private
    }

    /// The number of columns that the verifier accounts for.
    pub fn num_instance(&self) -> (n: usize)
        requires
            self.well_formed(),
        ensures
            n == self.shape().num_instance(),
    {
        1 + self.num_public + self.num_committed
    }

    /// Whether the matrices are well formed: what setup and proving ask of
    /// them.
    pub fn is_well_formed(&self) -> (ok: bool)
        ensures
            ok == self.well_formed(),
    {
        if self.a.len() != self.b.len() || self.a.len() != self.c.len() {
            return false;
        }
        let columns = match column_count(self.num_public, self.num_committed, self.num_private) {
            None => {
                return false;
            },
            Some(n) => n,
        };
        rows_in_range(&self.a, columns) && rows_in_range(&self.b, columns) && rows_in_range(
            &self.c,
            columns,
        )
    }

    /// Whether every constraint holds of the assignment `z`, which has one
    /// value for each column.
    pub fn is_satisfied(&self, z: &Vec<Fr>) -> (ok: bool)
        requires
            self.well_formed(),
            z.len() == self.shape().num_variables(),
        ensures
            ok == self.satisfied_by(z@),
    {
        let mut i: usize = 0;
        while i < self.a.len()
            invariant
                self.well_formed(),
                z.len() == self.shape().num_variables(),
                i <= self.a.len(),
                forall|j: int| 0 <= j < i ==> self.constraint_holds(j, z@),
            decreases self.a.len() - i,
        {
            let a = evaluate_constraint(&self.a[i], z);
            let b = evaluate_constraint(&self.b[i], z);
            let c = evaluate_constraint(&self.c[i], z);
            if !a.mul(&b).same_value(&c) {
                assert(!self.constraint_holds(i as int, z@));
                return false;
            }
            i += 1;
        }
        true
    }
}

/// A linear combination of variables: coefficients with the variables they
/// multiply.
pub type LinearCombination = Vec<(Fr, Variable)>;

/// One constraint: the assignment has to make `<a, z> * <b, z>` equal `<c, z>`.
#[derive(Clone, Debug, PartialEq, Eq)]
pub struct Constraint {
    pub a: Vec<(Fr, Variable)>,
    pub b: Vec<(Fr, Variable)>,
    pub c: Vec<(Fr, Variable)>,
}

/// Whether every variable of a linear combination has been allocated.
pub open spec fn lc_in_shape(lc: Seq<(Fr, Variable)>, shape: Shape) -> bool {
    forall|k: int| 0 <= k < lc.len() ==> shape.holds((#[trigger] lc[k]).1)
}

/// A linear combination with each variable replaced by its column.
pub open spec fn lc_columns(lc: Seq<(Fr, Variable)>, shape: Shape) -> Seq<(Fr, usize)> {
    Seq::new(lc.len(), |k: int| (lc[k].0, shape.column(lc[k].1) as usize))
}

/// Whether every variable of a list has a value.
pub open spec fn all_assigned(values: Seq<Option<Fr>>) -> bool {
    forall|k: int| 0 <= k < values.len() ==> (#[trigger] values[k]).is_some()
}

/// The values of a list of variables that all have one.
pub open spec fn assigned_values(values: Seq<Option<Fr>>) -> Seq<Fr> {
    Seq::new(values.len(), |k: int| values[k].unwrap())
}

/// A constraint system under construction. During setup the variables carry
/// no values; during proving each carries one.
#[derive(Clone, Debug, PartialEq, Eq)]
pub struct ConstraintSystem {
    pub public: Vec<Option<Fr>>,
    pub committed: Vec<Option<Fr>>,
    pub private: Vec<Option<Fr>>,
    pub constraints: Vec<Constraint>,
}

impl ConstraintSystem {
    /// The numbers of variables and constraints so far.
    pub open spec fn shape(&self) -> Shape {
        Shape {
            public: self.public.len(),
            committed: self.committed.len(),
            private: self.private.len(),
            constraints: self.constraints.len(),
        }
    }

    /// The number of columns fits the machine, and the constraints speak of
    /// allocated variables only.
    pub open spec fn well_formed(&self) -> bool {
        &&& self.shape().num_variables() <= usize::MAX
        &&& forall|i: int|
            0 <= i < self.constraints.len() ==> {
                &&& lc_in_shape((#[trigger] self.constraints[i]).a@, self.shape())
                &&& lc_in_shape(self.constraints[i].b@, self.shape())
                &&& lc_in_shape(self.constraints[i].c@, self.shape())
            }
    }

    /// Whether every variable has a value.
    pub open spec fn fully_assigned(&self) -> bool {
        all_assigned(self.public@) && all_assigned(self.committed@) && all_assigned(self.private@)
    }

    /// The assignment, column by column: one, the public inputs, the
    /// committed witnesses, the private witnesses.
    pub open spec fn full_assignment(&self) -> Seq<Fr> {
        seq![Fr::spec_one()] + assigned_values(self.public@) + assigned_values(
            self.committed@,
        ) + assigned_values(self.private@)
    }

    /// The matrices that [`ConstraintSystem::finalize`] gives.
    #[verifier::opaque]
    pub open spec fn is_frozen_as(&self, m: ConstraintMatrices) -> bool {
        &&& m.shape() == self.shape()
        &&& m.a.len() == m.b.len() == m.c.len()
        &&& forall|i: int|
            0 <= i < self.constraints.len() ==> {
                &&& (#[trigger] m.a[i])@ == lc_columns(self.constraints[i].a@, self.shape())
                &&& m.b[i]@ == lc_columns(self.constraints[i].b@, self.shape())
                &&& m.c[i]@ == lc_columns(self.constraints[i].c@, self.shape())
            }
    }

    /// A system without variables or constraints.
    pub fn new() -> (cs: ConstraintSystem)
        ensures
            cs.well_formed(),
            cs.shape() == (Shape { public: 0, committed: 0, private: 0, constraints: 0 }),
    {
        ConstraintSystem {
            public: Vec::new(),
            committed: Vec::new(),
            private: Vec::new(),
            constraints: Vec::new(),
        }
    }

    /// Allocate a public input, with its value where there is one.
    pub fn allocate_public(&mut self, value: Option<Fr>) -> (v: Variable)
        requires
            old(self).well_formed(),
            old(self).shape().num_variables() < usize::MAX,
        ensures
            final(self).well_formed(),
            v == Variable::Public(old(self).public.len()),
            final(self).public@ == old(self).public@.push(value),
            final(self).committed == old(self).committed,
            final(self).private == old(self).private,
            final(self).constraints == old(self).constraints,
    {
        let v = Variable::Public(self.public.len());
        self.public.push(value);
        v
    }

    /// Allocate a witness that the proof commits to, with its value where
    /// there is one.
    pub fn allocate_committed_witness(&mut self, value: Option<Fr>) -> (v: Variable)
        requires
            old(self).well_formed(),
            old(self).shape().num_variables() < usize::MAX,
        ensures
            final(self).well_formed(),
            v == Variable::Committed(old(self).committed.len()),
            final(self).committed@ == old(self).committed@.push(value),
            final(self).public == old(self).public,
            final(self).private == old(self).private,
            final(self).constraints == old(self).constraints,
    {
        let v = Variable::Committed(self.committed.len());
        self.committed.push(value);
        v
    }

    /// Allocate a witness that stays private, with its value where there is one.
    pub fn allocate_private_witness(&mut self, value: Option<Fr>) -> (v: Variable)
        requires
            old(self).well_formed(),
            old(self).shape().num_variables() < usize::MAX,
        ensures
            final(self).well_formed(),
            v == Variable::Private(old(self).private.len()),
            final(self).private@ == old(self).private@.push(value),
            final(self).public == old(self).public,
            final(self).committed == old(self).committed,
            final(self).constraints == old(self).constraints,
    {
        let v = Variable::Private(self.private.len());
        self.private.push(value);
        v
    }

    /// Enforce `<a, z> * <b, z> = <c, z>`. Whether an assignment meets the
    /// constraint is not looked at here.
    pub fn enforce(&mut self, a: Vec<(Fr, Variable)>, b: Vec<(Fr, Variable)>, c: Vec<(Fr, Variable)>)
        requires
            old(self).well_formed(),
            lc_in_shape(a@, old(self).shape()),
            lc_in_shape(b@, old(self).shape()),
            lc_in_shape(c@, old(self).shape()),
        ensures
            final(self).well_formed(),
            final(self).constraints@ == old(self).constraints@.push(Constraint { a, b, c }),
            final(self).public == old(self).public,
            final(self).committed == old(self).committed,
            final(self).private == old(self).private,
    {
        self.constraints.push(Constraint { a, b, c });
    }

    /// The column of an allocated variable.
    fn column(&self, v: Variable) -> (col: usize)
        requires
            self.shape().num_variables() <= usize::MAX,
            self.shape().holds(v),
        ensures
            col == self.shape().column(v),
            col < self.shape().num_variables(),
    {
        match v {
            Variable::One => 0,
            Variable::Public(i) => 1 + i,
            Variable::Committed(i) => 1 + self.public.len() + i,
            Variable::Private(i) => 1 + self.public.len() + self.committed.len() + i,
        }
    }

    /// A linear combination with each variable replaced by its column.
    fn columns_of(&self, lc: &Vec<(Fr, Variable)>) -> (row: Vec<(Fr, usize)>)
        requires
            self.shape().num_variables() <= usize::MAX,
            lc_in_shape(lc@, self.shape()),
        ensures
            row@ == lc_columns(lc@, self.shape()),
            row_in_range(row@, self.shape().num_variables()),
    {
        let mut row: Vec<(Fr, usize)> = Vec::new();
        let mut k: usize = 0;
        while k < lc.len()
            invariant
                k <= lc.len(),
                self.shape().num_variables() <= usize::MAX,
                lc_in_shape(lc@, self.shape()),
                row@ == lc_columns(lc@, self.shape()).subrange(0, k as int),
                row_in_range(row@, self.shape().num_variables()),
            decreases lc.len() - k,
        {
            let col = self.column(lc[k].1);
            row.push((lc[k].0, col));
            assert(row@ =~= lc_columns(lc@, self.shape()).subrange(0, k + 1));
            k += 1;
        }
        assert(row@ =~= lc_columns(lc@, self.shape()));
        row
    }

    /// Freeze the system into its three matrices.
    pub fn finalize(&self) -> (m: ConstraintMatrices)
        requires
            self.well_formed(),
        ensures
            m.well_formed(),
            self.is_frozen_as(m),
            m.shape() == self.shape(),
    {
        let mut a: Vec<Vec<(Fr, usize)>> = Vec::new();
        let mut b: Vec<Vec<(Fr, usize)>> = Vec::new();
        let mut c: Vec<Vec<(Fr, usize)>> = Vec::new();
        let mut i: usize = 0;
        while i < self.constraints.len()
            invariant
                self.well_formed(),
                i <= self.constraints.len(),
                a.len() == i,
                b.len() == i,
                c.len() == i,
                forall|j: int|
                    0 <= j < i ==> {
                        &&& (#[trigger] a[j])@ == lc_columns(self.constraints[j].a@, self.shape())
                        &&& b[j]@ == lc_columns(self.constraints[j].b@, self.shape())
                        &&& c[j]@ == lc_columns(self.constraints[j].c@, self.shape())
                        &&& row_in_range(a[j]@, self.shape().num_variables())
                        &&& row_in_range(b[j]@, self.shape().num_variables())
                        &&& row_in_range(c[j]@, self.shape().num_variables())
                    },
            decreases self.constraints.len() - i,
        {
            let row_a = self.columns_of(&self.constraints[i].a);
            let row_b = self.columns_of(&self.constraints[i].b);
            let row_c = self.columns_of(&self.constraints[i].c);
            a.push(row_a);
            b.push(row_b);
            c.push(row_c);
            i += 1;
        }
        let m = ConstraintMatrices {
            num_public: self.public.len(),
            num_committed: self.committed.len(),
            num_private: self.private.len(),
            a,
            b,
            c,
        };
        proof {
            reveal(ConstraintSystem::is_frozen_as);
            assert(m.shape() == self.shape());
            assert forall|j: int| 0 <= j < m.a.len() implies row_in_range(
                #[trigger] m.a[j]@,
                m.shape().num_variables(),
            ) by {
                let _ = a[j];
            }
            assert forall|j: int| 0 <= j < m.b.len() implies row_in_range(
                #[trigger] m.b[j]@,
                m.shape().num_variables(),
            ) by {
                let _ = a[j];
            }
            assert forall|j: int| 0 <= j < m.c.len() implies row_in_range(
                #[trigger] m.c[j]@,
                m.shape().num_variables(),
            ) by {
                let _ = a[j];
            }
        }
        m
    }

    /// The assignment, column by column, or `AssignmentMissing` where a
    /// variable has no value.
    pub fn assignment(&self) -> (r: Result<Vec<Fr>, SynthesisError>)
        ensures
            r.is_ok() <==> self.fully_assigned(),
            r matches Ok(z) ==> z@ == self.full_assignment(),
            r matches Err(e) ==> e == SynthesisError::AssignmentMissing,
    {
        let mut z: Vec<Fr> = Vec::new();
        z.push(Fr::one());
        assert(z@ =~= seq![Fr::spec_one()]);
        if !append_values(&mut z, &self.public) {
            return Err(SynthesisError::AssignmentMissing);
        }
        if !append_values(&mut z, &self.committed) {
            return Err(SynthesisError::AssignmentMissing);
        }
        if !append_values(&mut z, &self.private) {
            return Err(SynthesisError::AssignmentMissing);
        }
        Ok(z)
    }

    /// Whether the assignment meets every constraint, or `AssignmentMissing`
    /// where a variable has no value.
    pub fn is_satisfied(&self) -> (r: Result<bool, SynthesisError>)
        requires
            self.well_formed(),
        ensures
            r.is_ok() <==> self.fully_assigned(),
            r matches Err(e) ==> e == SynthesisError::AssignmentMissing,
            r matches Ok(ok) ==> exists|m: ConstraintMatrices|
                self.is_frozen_as(m) && ok == m.satisfied_by(self.full_assignment()),
    {
        match self.assignment() {
            Err(e) => Err(e),
            Ok(z) => {
                let m = self.finalize();
                Ok(m.is_satisfied(&z))
            },
        }
    }
}

/// Append the values of `values` to `out`, as far as they are there.
fn append_values(out: &mut Vec<Fr>, values: &Vec<Option<Fr>>) -> (complete: bool)
    ensures
        complete == all_assigned(values@),
        complete ==> final(out)@ == old(out)@ + assigned_values(values@),
{
    let mut k: usize = 0;
    while k < values.len()
        invariant
            k <= values.len(),
            forall|j: int| 0 <= j < k ==> (#[trigger] values[j]).is_some(),
            out@ == old(out)@ + assigned_values(values@).subrange(0, k as int),
        decreases values.len() - k,
    {
        match values[k] {
            None => {
                return false;
            },
            Some(v) => {
                out.push(v);
                assert(out@ =~= old(out)@ + assigned_values(values@).subrange(0, k + 1));
            },
        }
        k += 1;
    }
    assert(assigned_values(values@).subrange(0, k as int) =~= assigned_values(values@));
    true
}

/// Computes the inner product of `terms` with `assignment`.
pub fn evaluate_constraint(terms: &Vec<(Fr, usize)>, assignment: &Vec<Fr>) -> (r: Fr)
    requires
        row_in_range(terms@, assignment.len() as nat),
    ensures
        r.is_canonical(),
        r@ == row_product(terms@, assignment@),
{
    let mut sum = Fr::zero();
    let mut k: usize = 0;
    while k < terms.len()
        invariant
            k <= terms.len(),
            row_in_range(terms@, assignment.len() as nat),
            sum.is_canonical(),
            sum@ == row_value(terms@, assignment@, k as nat),
        decreases terms.len() - k,
    {
        let coeff = terms[k].0;
        let index = terms[k].1;
        let product = assignment[index].mul(&coeff);
        proof {
            lemma_add_product_mod(sum@, coeff@, assignment@[index as int]@);
        }
        sum = sum.add(&product);
        k += 1;
    }
    sum
}

/// Adding a reduced product is adding the product.
pub proof fn lemma_add_product_mod(s: nat, x: nat, y: nat)
    ensures
        (s + (y * x) % fr_modulus()) % fr_modulus() == (s + x * y) % fr_modulus(),
{
    vstd::arithmetic::mul::lemma_mul_is_commutative(x as int, y as int);
    vstd::arithmetic::div_mod::lemma_add_mod_noop_right(
        s as int,
        (x * y) as int,
        fr_modulus() as int,
    );
}

} // verus!
