//! The reduction from rank-1 constraint systems to quadratic arithmetic
//! programs.
//!
//! The constraints are laid on an evaluation domain: a group of roots of
//! unity whose size is a power of two. After the rows of the constraints come
//! one row for each instance column, which keeps the polynomials of those
//! columns independent. The transforms over the domain are `ark-poly`'s.
use crate::error::SynthesisError;
use crate::field::{
    all_canonical, fr_difference, fr_inverse_of, fr_modulus, fr_product, fr_sum, fr_views, Fr,
};
use crate::r1cs::{evaluate_constraint, row_in_range, row_product, ConstraintMatrices};
use ark_bn254::Fr as ArkFr;
use ark_ff::{BigInt, PrimeField};
use ark_poly::{EvaluationDomain, GeneralEvaluationDomain};
use num_bigint::BigUint;
use vstd::arithmetic::power::pow;
use vstd::arithmetic::power2::pow2;
use vstd::prelude::*;

verus! {

/// The sizes that an evaluation domain over the scalar field can have: the
/// powers of two up to the field's two-adicity.
pub open spec fn is_domain_size(m: nat) -> bool {
    exists|k: nat| k <= 28 && m == pow2(k)
}

/// Whether `m` is the size of the smallest domain with room for `n` values.
pub open spec fn is_domain_size_for(n: nat, m: nat) -> bool {
    is_domain_size(m) && n <= m && (m == 1 || m < 2 * n)
}

/// The values at `tau` of the Lagrange polynomials of the domain of size
/// `size`, as `ark-poly` computes them.
pub uninterp spec fn lagrange_coefficients(size: nat, tau: nat) -> Seq<nat>;

/// The values over the coset `offset * H` of the polynomial with the given
/// coefficients, where `H` is the domain of size `size`.
pub uninterp spec fn fft(size: nat, offset: nat, coeffs: Seq<nat>) -> Seq<nat>;

/// The coefficients of the polynomial with the given values over the coset
/// `offset * H`, where `H` is the domain of size `size`.
pub uninterp spec fn ifft(size: nat, offset: nat, evals: Seq<nat>) -> Seq<nat>;

/// The value at `tau` of the polynomial that vanishes on the domain of size
/// `size`: `tau^size - 1`.
pub open spec fn vanishing_value(size: nat, tau: nat) -> nat {
    ((pow(tau as int, size) - 1) % (fr_modulus() as int)) as nat
}

/// The generator of the field's multiplicative group, which shifts the
/// domain to the coset that the quotient is computed over.
pub open spec fn coset_offset() -> nat {
    5
}

/// The values that the rows of one matrix take under an assignment, laid on
/// the domain: the inner product of each row, then `tail`, then zeros.
pub open spec fn domain_values(rows: Seq<Vec<(Fr, usize)>>, z: Seq<Fr>, tail: Seq<nat>, size: nat) -> Seq<
    nat,
> {
    Seq::new(
        size,
        |j: int|
            if j < rows.len() {
                row_product(rows[j]@, z)
            } else if j - rows.len() < tail.len() {
                tail[j - rows.len()]
            } else {
                0
            },
    )
}

/// `(a[i] * b[i] - c[i]) * scale` in the field, for each `i`.
pub open spec fn scaled_differences(a: Seq<nat>, b: Seq<nat>, c: Seq<nat>, scale: nat) -> Seq<nat> {
    Seq::new(a.len(), |i: int| fr_product(fr_difference(fr_product(a[i], b[i]), c[i]), scale))
}

/// The coefficients of the quotient `h = (a * b - c) / z`, where `a`, `b`
/// and `c` interpolate the values of the three matrices under the assignment
/// and `z` vanishes on the domain. The division is done value by value over
/// a coset, on which `z` is the constant `offset^size - 1`.
pub open spec fn quotient_coefficients(m: ConstraintMatrices, z: Seq<Fr>, size: nat) -> Seq<nat> {
    let instance = fr_views(z.subrange(0, m.shape().num_instance() as int));
    let a = fft(size, coset_offset(), ifft(size, 1, domain_values(m.a@, z, instance, size)));
    let b = fft(size, coset_offset(), ifft(size, 1, domain_values(m.b@, z, Seq::empty(), size)));
    let c = fft(size, coset_offset(), ifft(size, 1, domain_values(m.c@, z, Seq::empty(), size)));
    let scale = fr_inverse_of(vanishing_value(size, coset_offset()));
    ifft(size, coset_offset(), scaled_differences(a, b, c, scale))
}

/// What [`witness_map_from_matrices`] answers.
pub open spec fn witness_map(m: ConstraintMatrices, z: Seq<Fr>) -> Result<Seq<nat>, SynthesisError> {
    if m.a.len() + m.shape().num_instance() > 0x1000_0000 {
        Err(SynthesisError::PolynomialDegreeTooLarge)
    } else if !m.satisfied_by(z) {
        Err(SynthesisError::Unsatisfiable)
    } else if vanishing_value(domain_size_of(m), coset_offset()) == 0 {
        Err(SynthesisError::UnexpectedIdentity)
    } else {
        Ok(quotient_coefficients(m, z, domain_size_of(m)))
    }
}

/// The size of the smallest domain with room for `n` values.
pub open spec fn smallest_domain_size(n: nat) -> nat {
    choose|size: nat| is_domain_size_for(n, size)
}

/// The size of the domain that the constraints of `m` are laid on: it has
/// room for one value for each constraint and each instance column.
pub open spec fn domain_size_of(m: ConstraintMatrices) -> nat {
    smallest_domain_size((m.a.len() + m.shape().num_instance()) as nat)
}

/// An answer that holds scalars, with their residues as its view.
pub open spec fn scalars_outcome(r: Result<Vec<Fr>, SynthesisError>) -> Result<
    Seq<nat>,
    SynthesisError,
> {
    match r {
        Ok(v) => Ok(fr_views(v@)),
        Err(e) => Err(e),
    }
}

/// The values that the rows of one matrix take under the assignment `z`,
/// laid on a domain of size `size`: the inner product of each row, then the
/// first `tail` values of `z`, then zeros.
fn lay_on_domain(rows: &Vec<Vec<(Fr, usize)>>, z: &Vec<Fr>, tail: usize, size: usize) -> (r: Vec<Fr>)
    requires
        forall|i: int| 0 <= i < rows.len() ==> row_in_range(#[trigger] rows[i]@, z.len() as nat),
        tail <= z.len(),
        rows.len() + tail <= size,
    ensures
        r.len() == size,
        fr_views(r@) == domain_values(rows@, z@, fr_views(z@.subrange(0, tail as int)), size as nat),
{
    let ghost want = domain_values(rows@, z@, fr_views(z@.subrange(0, tail as int)), size as nat);
    let mut out: Vec<Fr> = Vec::new();
    let mut j: usize = 0;
    while j < size
        invariant
            j <= size,
            out.len() == j,
            forall|i: int| 0 <= i < rows.len() ==> row_in_range(#[trigger] rows[i]@, z.len() as nat),
            tail <= z.len(),
            rows.len() + tail <= size,
            want == domain_values(rows@, z@, fr_views(z@.subrange(0, tail as int)), size as nat),
            forall|i: int| 0 <= i < j ==> (#[trigger] out[i])@ == want[i],
        decreases size - j,
    {
        if j < rows.len() {
            out.push(evaluate_constraint(&rows[j], z));
        } else if j - rows.len() < tail {
            out.push(z[j - rows.len()]);
        } else {
            out.push(Fr::zero());
        }
        j += 1;
    }
    assert(fr_views(out@) =~= want);
    out
}

/// `(a[i] * b[i] - c[i]) * scale` for each `i`.
fn scale_differences(a: &Vec<Fr>, b: &Vec<Fr>, c: &Vec<Fr>, scale: &Fr) -> (r: Vec<Fr>)
    requires
        a.len() == b.len(),
        a.len() == c.len(),
    ensures
        r.len() == a.len(),
        fr_views(r@) == scaled_differences(fr_views(a@), fr_views(b@), fr_views(c@), scale@),
{
    let ghost want = scaled_differences(fr_views(a@), fr_views(b@), fr_views(c@), scale@);
    let mut out: Vec<Fr> = Vec::new();
    let mut i: usize = 0;
    while i < a.len()
        invariant
            i <= a.len(),
            a.len() == b.len(),
            a.len() == c.len(),
            out.len() == i,
            want == scaled_differences(fr_views(a@), fr_views(b@), fr_views(c@), scale@),
            forall|k: int| 0 <= k < i ==> (#[trigger] out[k])@ == want[k],
        decreases a.len() - i,
    {
        out.push(a[i].mul(&b[i]).sub(&c[i]).mul(scale));
        i += 1;
    }
    assert(fr_views(out@) =~= want);
    out
}

/// Whether `a[i] * b[i]` is `c[i]` for each `i` below `n`.
fn products_agree(a: &Vec<Fr>, b: &Vec<Fr>, c: &Vec<Fr>, n: usize) -> (ok: bool)
    requires
        n <= a.len(),
        n <= b.len(),
        n <= c.len(),
    ensures
        ok == (forall|i: int| 0 <= i < n ==> fr_product(a[i]@, b[i]@) == #[trigger] c[i]@),
{
    let mut j: usize = 0;
    while j < n
        invariant
            j <= n,
            n <= a.len(),
            n <= b.len(),
            n <= c.len(),
            forall|i: int| 0 <= i < j ==> fr_product(a[i]@, b[i]@) == #[trigger] c[i]@,
        decreases n - j,
    {
        if !a[j].mul(&b[j]).same_value(&c[j]) {
            return false;
        }
        j += 1;
    }
    true
}

/// Computes the coefficients of the quotient polynomial `h` of the
/// assignment `full_assignment`, which has one value for each column.
///
/// An assignment that does not meet every constraint has no quotient: the
/// answer is then `Unsatisfiable`.
pub fn witness_map_from_matrices(matrices: &ConstraintMatrices, full_assignment: &Vec<Fr>) -> (r:
    Result<Vec<Fr>, SynthesisError>)
    requires
        matrices.well_formed(),
        full_assignment.len() == matrices.shape().num_variables(),
    ensures
        scalars_outcome(r) == witness_map(*matrices, full_assignment@),
        r matches Ok(h) ==> h.len() == domain_size_of(*matrices),
{
    let num_constraints = matrices.a.len();
    let num_instance = matrices.num_instance();
    if num_constraints > 0x1000_0000 || num_instance > 0x1000_0000 {
        return Err(SynthesisError::PolynomialDegreeTooLarge);
    }
    let size = match evaluation_domain_size(num_constraints + num_instance) {
        None => {
            return Err(SynthesisError::PolynomialDegreeTooLarge);
        },
        Some(size) => size,
    };
    let a = lay_on_domain(&matrices.a, full_assignment, num_instance, size);
    let b = lay_on_domain(&matrices.b, full_assignment, 0, size);
    let c = lay_on_domain(&matrices.c, full_assignment, 0, size);
    assert(fr_views(full_assignment@.subrange(0, 0)) =~= Seq::<nat>::empty());
    let ok = products_agree(&a, &b, &c, num_constraints);
    proof {
        assert forall|i: int| 0 <= i < num_constraints implies (matrices.constraint_holds(
            i,
            full_assignment@,
        ) <==> fr_product(a[i]@, b[i]@) == c[i]@) by {
            assert(a[i]@ == fr_views(a@)[i]);
            assert(b[i]@ == fr_views(b@)[i]);
            assert(c[i]@ == fr_views(c@)[i]);
        }
        if ok {
            assert forall|i: int| 0 <= i < num_constraints implies matrices.constraint_holds(
                i,
                full_assignment@,
            ) by {
                assert(fr_product(a[i]@, b[i]@) == c[i]@);
            }
        } else if matrices.satisfied_by(full_assignment@) {
            assert forall|i: int| 0 <= i < num_constraints implies fr_product(a[i]@, b[i]@)
                == #[trigger] c[i]@ by {
                assert(matrices.constraint_holds(i, full_assignment@));
            }
        }
        assert(ok == matrices.satisfied_by(full_assignment@));
    }
    if !ok {
        return Err(SynthesisError::Unsatisfiable);
    }
    let one = Fr::one();
    let offset = Fr::from_u64(5);
    let scale = match vanishing_at(size, &offset).inverse() {
        None => {
            return Err(SynthesisError::UnexpectedIdentity);
        },
        Some(scale) => scale,
    };
    let a = coset_fft(size, &offset, &coset_ifft(size, &one, &a));
    let b = coset_fft(size, &offset, &coset_ifft(size, &one, &b));
    let c = coset_fft(size, &offset, &coset_ifft(size, &one, &c));
    let ab = scale_differences(&a, &b, &c, &scale);
    Ok(coset_ifft(size, &offset, &ab))
}

/// `tau^i` in the field.
pub open spec fn fr_power(tau: nat, i: nat) -> nat {
    (pow(tau as int, i) % (fr_modulus() as int)) as nat
}

/// Multiplying a power by the base gives the next power.
pub proof fn lemma_fr_power_step(tau: nat, i: nat)
    ensures
        fr_product(fr_power(tau, i), tau) == fr_power(tau, i + 1),
        fr_power(tau, 0) == 1,
{
    let m = fr_modulus() as int;
    vstd::arithmetic::power::lemma_pow0(tau as int);
    assert(pow(tau as int, i + 1) == tau * pow(tau as int, i)) by {
        reveal(pow);
    }
    vstd::arithmetic::mul::lemma_mul_is_commutative(tau as int, pow(tau as int, i));
    vstd::arithmetic::div_mod::lemma_mul_mod_noop_left(pow(tau as int, i), tau as int, m);
}

/// The scalars of the bases that carry the quotient polynomial:
/// `zt * delta_inverse * tau^i` for each `i` below `max_power`.
pub open spec fn quotient_scalars(max_power: nat, tau: nat, zt: nat, delta_inverse: nat) -> Seq<nat> {
    Seq::new(max_power, |i: int| fr_product(fr_product(zt, delta_inverse), fr_power(tau, i as nat)))
}

/// Computes the exponents that the generator uses to calculate base
/// elements which the prover later uses to compute `h(x)t(x)/delta`.
pub fn h_query_scalars(max_power: usize, t: &Fr, zt: &Fr, delta_inverse: &Fr) -> (r: Vec<Fr>)
    ensures
        r.len() == max_power,
        all_canonical(r@),
        fr_views(r@) == quotient_scalars(max_power as nat, t@, zt@, delta_inverse@),
{
    let ghost want = quotient_scalars(max_power as nat, t@, zt@, delta_inverse@);
    let factor = zt.mul(delta_inverse);
    let mut power = Fr::one();
    let mut out: Vec<Fr> = Vec::new();
    let mut i: usize = 0;
    proof {
        lemma_fr_power_step(t@, 0);
    }
    while i < max_power
        invariant
            i <= max_power,
            out.len() == i,
            factor@ == fr_product(zt@, delta_inverse@),
            power@ == fr_power(t@, i as nat),
            want == quotient_scalars(max_power as nat, t@, zt@, delta_inverse@),
            all_canonical(out@),
            forall|k: int| 0 <= k < i ==> (#[trigger] out[k])@ == want[k],
        decreases max_power - i,
    {
        out.push(factor.mul(&power));
        proof {
            lemma_fr_power_step(t@, i as nat);
        }
        power = power.mul(t);
        i += 1;
    }
    assert(fr_views(out@) =~= want);
    out
}

/// `acc` plus `w * coeff` for each of the first `k` terms of `row` that lie
/// in column `col`, summed in the field in the order of the terms.
pub open spec fn add_row(acc: nat, row: Seq<(Fr, usize)>, w: nat, col: nat, k: nat) -> nat
    decreases k,
{
    if k == 0 {
        acc
    } else {
        let before = add_row(acc, row, w, col, (k - 1) as nat);
        if row[k - 1].1 == col {
            fr_sum(before, fr_product(w, row[k - 1].0@))
        } else {
            before
        }
    }
}

/// `acc` plus `u[j] * coeff` for each term in column `col` of the first `n`
/// rows, summed in the field row by row.
pub open spec fn add_rows(acc: nat, rows: Seq<Vec<(Fr, usize)>>, u: Seq<nat>, col: nat, n: nat) -> nat
    decreases n,
{
    if n == 0 {
        acc
    } else {
        add_row(
            add_rows(acc, rows, u, col, (n - 1) as nat),
            rows[n - 1]@,
            u[n - 1],
            col,
            rows[n - 1].len() as nat,
        )
    }
}

/// The value at `tau` of the polynomial of column `col` of one matrix:
/// the sum over the rows `j` of the matrix's entry times the `j`-th Lagrange
/// coefficient `u[j]`, on top of `start`.
pub open spec fn column_polynomial_value(
    rows: Seq<Vec<(Fr, usize)>>,
    u: Seq<nat>,
    start: nat,
    col: nat,
) -> nat {
    add_rows(start, rows, u, col, rows.len())
}

/// The QAP of a constraint system, evaluated at one point: the values of the
/// polynomials of each column for the three matrices, the value of the
/// vanishing polynomial, and the size of the domain.
pub struct QapEvaluation {
    pub a: Vec<Fr>,
    pub b: Vec<Fr>,
    pub c: Vec<Fr>,
    pub zt: Fr,
    pub domain_size: usize,
}

/// Whether `q` is the QAP of `m` evaluated at `tau`. The polynomial of an
/// instance column in the first matrix starts from the Lagrange coefficient
/// of that column's own row, which follows the rows of the constraints.
#[verifier::opaque]
pub open spec fn is_qap_evaluation(q: QapEvaluation, m: ConstraintMatrices, tau: nat) -> bool {
    let u = lagrange_coefficients(q.domain_size as nat, tau);
    &&& q.domain_size == domain_size_of(m)
    &&& q.zt@ == vanishing_value(q.domain_size as nat, tau)
    &&& q.a.len() == m.shape().num_variables()
    &&& q.b.len() == m.shape().num_variables()
    &&& q.c.len() == m.shape().num_variables()
    &&& forall|col: int|
        0 <= col < q.a.len() ==> (#[trigger] q.a[col])@ == column_polynomial_value(
            m.a@,
            u,
            if col < m.shape().num_instance() {
                u[m.a.len() + col]
            } else {
                0
            },
            col as nat,
        )
    &&& forall|col: int|
        0 <= col < q.b.len() ==> (#[trigger] q.b[col])@ == column_polynomial_value(
            m.b@,
            u,
            0,
            col as nat,
        )
    &&& forall|col: int|
        0 <= col < q.c.len() ==> (#[trigger] q.c[col])@ == column_polynomial_value(
            m.c@,
            u,
            0,
            col as nat,
        )
}

/// Add `w * coeff` to `acc[col]` for each term `(coeff, col)` of `row`.
fn scatter_row(acc: &mut Vec<Fr>, row: &Vec<(Fr, usize)>, w: &Fr)
    requires
        row_in_range(row@, old(acc).len() as nat),
    ensures
        final(acc).len() == old(acc).len(),
        forall|col: int|
            0 <= col < old(acc).len() ==> (#[trigger] final(acc)[col])@ == add_row(
                old(acc)[col]@,
                row@,
                w@,
                col as nat,
                row.len() as nat,
            ),
{
    let mut k: usize = 0;
    while k < row.len()
        invariant
            k <= row.len(),
            acc.len() == old(acc).len(),
            row_in_range(row@, acc.len() as nat),
            forall|col: int|
                0 <= col < acc.len() ==> (#[trigger] acc[col])@ == add_row(
                    old(acc)[col]@,
                    row@,
                    w@,
                    col as nat,
                    k as nat,
                ),
        decreases row.len() - k,
    {
        let coeff = row[k].0;
        let index = row[k].1;
        let updated = acc[index].add(&w.mul(&coeff));
        acc.set(index, updated);
        k += 1;
    }
}

/// Add `u[j] * coeff` to `acc[col]` for each term `(coeff, col)` of each of
/// the first `n` rows.
fn scatter_rows(acc: &mut Vec<Fr>, rows: &Vec<Vec<(Fr, usize)>>, u: &Vec<Fr>, n: usize)
    requires
        n <= rows.len(),
        n <= u.len(),
        forall|i: int| 0 <= i < rows.len() ==> row_in_range(#[trigger] rows[i]@, old(acc).len() as nat),
    ensures
        final(acc).len() == old(acc).len(),
        forall|col: int|
            0 <= col < old(acc).len() ==> (#[trigger] final(acc)[col])@ == add_rows(
                old(acc)[col]@,
                rows@,
                fr_views(u@),
                col as nat,
                n as nat,
            ),
{
    let mut j: usize = 0;
    while j < n
        invariant
            j <= n,
            n <= rows.len(),
            n <= u.len(),
            acc.len() == old(acc).len(),
            forall|i: int| 0 <= i < rows.len() ==> row_in_range(#[trigger] rows[i]@, acc.len() as nat),
            forall|col: int|
                0 <= col < acc.len() ==> (#[trigger] acc[col])@ == add_rows(
                    old(acc)[col]@,
                    rows@,
                    fr_views(u@),
                    col as nat,
                    j as nat,
                ),
        decreases n - j,
    {
        scatter_row(acc, &rows[j], &u[j]);
        j += 1;
    }
}

/// `n` zeros.
fn zeros(n: usize) -> (r: Vec<Fr>)
    ensures
        r.len() == n,
        forall|i: int| 0 <= i < n ==> (#[trigger] r[i])@ == 0,
{
    let mut out: Vec<Fr> = Vec::new();
    let mut i: usize = 0;
    while i < n
        invariant
            i <= n,
            out.len() == i,
            forall|k: int| 0 <= k < i ==> (#[trigger] out[k])@ == 0,
        decreases n - i,
    {
        out.push(Fr::zero());
        i += 1;
    }
    out
}

/// Computes a QAP instance corresponding to the R1CS instance defined by
/// `matrices`, evaluated at the point `t`.
pub fn instance_map_with_evaluation(matrices: &ConstraintMatrices, t: &Fr) -> (r: Result<
    QapEvaluation,
    SynthesisError,
>)
    requires
        matrices.well_formed(),
    ensures
        r.is_err() <==> matrices.a.len() + matrices.shape().num_instance() > 0x1000_0000,
        r matches Err(e) ==> e == SynthesisError::PolynomialDegreeTooLarge,
        r matches Ok(q) ==> {
            &&& is_qap_evaluation(q, *matrices, t@)
            &&& q.domain_size >= 1
            &&& q.domain_size == domain_size_of(*matrices)
            &&& q.zt@ == vanishing_value(q.domain_size as nat, t@)
            &&& q.a.len() == matrices.shape().num_variables()
            &&& q.b.len() == matrices.shape().num_variables()
            &&& q.c.len() == matrices.shape().num_variables()
        },
{
    let num_constraints = matrices.a.len();
    let num_instance = matrices.num_instance();
    let num_variables = matrices.num_variables();
    if num_constraints > 0x1000_0000 || num_instance > 0x1000_0000 {
        return Err(SynthesisError::PolynomialDegreeTooLarge);
    }
    let domain_size = match evaluation_domain_size(num_constraints + num_instance) {
        None => {
            return Err(SynthesisError::PolynomialDegreeTooLarge);
        },
        Some(size) => size,
    };
    let zt = vanishing_at(domain_size, t);
    let u = lagrange_coefficients_at(domain_size, t);
    let mut a = zeros(num_variables);
    let mut col: usize = 0;
    while col < num_instance
        invariant
            col <= num_instance,
            num_instance <= num_variables,
            a.len() == num_variables,
            u.len() == domain_size,
            num_constraints + num_instance <= domain_size,
            forall|i: int| 0 <= i < col ==> (#[trigger] a[i])@ == u[num_constraints + i]@,
            forall|i: int| col <= i < num_variables ==> (#[trigger] a[i])@ == 0,
        decreases num_instance - col,
    {
        a.set(col, u[num_constraints + col]);
        col += 1;
    }
    let mut b = zeros(num_variables);
    let mut c = zeros(num_variables);
    let ghost a_start = a@;
    scatter_rows(&mut a, &matrices.a, &u, num_constraints);
    scatter_rows(&mut b, &matrices.b, &u, num_constraints);
    scatter_rows(&mut c, &matrices.c, &u, num_constraints);
    let q = QapEvaluation { a, b, c, zt, domain_size };
    proof {
        reveal(is_qap_evaluation);
        let lagrange = lagrange_coefficients(domain_size as nat, t@);
        assert(fr_views(u@) == lagrange);
        assert forall|i: int| 0 <= i < q.a.len() implies (#[trigger] q.a[i])@
            == column_polynomial_value(
            matrices.a@,
            lagrange,
            if i < matrices.shape().num_instance() {
                lagrange[matrices.a.len() + i]
            } else {
                0
            },
            i as nat,
        ) by {
            if i < num_instance {
                assert(a_start[i]@ == u[num_constraints + i]@);
                assert(fr_views(u@)[num_constraints + i] == u[num_constraints + i]@);
            }
        }
    }
    Ok(q)
}

/// The size of the smallest domain with room for `n` values, if there is one.
pub fn evaluation_domain_size(n: usize) -> (r: Option<usize>)
    ensures
        r.is_none() <==> n > 0x1000_0000,
        r matches Some(m) ==> is_domain_size_for(n as nat, m as nat) && m == smallest_domain_size(
            n as nat,
        ),
{
    domain_size(n)
}

/// The value at `tau` of the polynomial that vanishes on the domain of size
/// `size`.
pub fn evaluate_vanishing_polynomial(size: usize, tau: &Fr) -> (r: Fr)
    requires
        is_domain_size(size as nat),
    ensures
        r.is_canonical(),
        r@ == vanishing_value(size as nat, tau@),
{
    vanishing_at(size, tau)
}

/// `EvaluationDomain::new` and `EvaluationDomain::size` of
/// `GeneralEvaluationDomain<ark_bn254::Fr>`: the least power of two that is
/// not below `n`, as long as it is at most `2^28`.
#[verifier::external_body]
fn domain_size(n: usize) -> (r: Option<usize>)
    ensures
        r.is_none() <==> n > 0x1000_0000,
        r matches Some(m) ==> is_domain_size_for(n as nat, m as nat) && m == smallest_domain_size(
            n as nat,
        ),
{
    GeneralEvaluationDomain::<ArkFr>::new(n).map(|d| d.size())
}

/// `EvaluationDomain::evaluate_vanishing_polynomial` of the domain of size
/// `size`: `tau^size - 1` in the field.
#[verifier::external_body]
fn vanishing_at(size: usize, tau: &Fr) -> (r: Fr)
    requires
        is_domain_size(size as nat),
    ensures
        r.is_canonical(),
        r@ == vanishing_value(size as nat, tau@),
{
    let d = GeneralEvaluationDomain::<ArkFr>::new(size).unwrap();
    let t = ArkFr::from(BigUint::from(BigInt(tau.limbs)));
    Fr { limbs: d.evaluate_vanishing_polynomial(t).into_bigint().0 }
}

/// `EvaluationDomain::evaluate_all_lagrange_coefficients` of the domain of
/// size `size`: one value for each element of the domain, a function of the
/// size and of `tau` alone.
#[verifier::external_body]
fn lagrange_coefficients_at(size: usize, tau: &Fr) -> (r: Vec<Fr>)
    requires
        is_domain_size(size as nat),
    ensures
        r.len() == size,
        all_canonical(r@),
        fr_views(r@) == lagrange_coefficients(size as nat, tau@),
{
    let d = GeneralEvaluationDomain::<ArkFr>::new(size).unwrap();
    let t = ArkFr::from(BigUint::from(BigInt(tau.limbs)));
    let u = d.evaluate_all_lagrange_coefficients(t);
    u.iter().map(|c| Fr { limbs: c.into_bigint().0 }).collect()
}

/// `EvaluationDomain::fft` over the coset that `EvaluationDomain::get_coset`
/// makes of the domain of size `size`: as many values as the domain has
/// elements, a function of the size, the offset and the coefficients alone.
#[verifier::external_body]
fn coset_fft(size: usize, offset: &Fr, coeffs: &Vec<Fr>) -> (r: Vec<Fr>)
    requires
        is_domain_size(size as nat),
        offset@ != 0,
        coeffs.len() == size,
    ensures
        r.len() == size,
        all_canonical(r@),
        fr_views(r@) == fft(size as nat, offset@, fr_views(coeffs@)),
{
    let f = |c: &Fr| ArkFr::from(BigUint::from(BigInt(c.limbs)));
    let d = GeneralEvaluationDomain::<ArkFr>::new(size).unwrap().get_coset(f(offset)).unwrap();
    let v: Vec<ArkFr> = coeffs.iter().map(f).collect();
    d.fft(&v).iter().map(|c| Fr { limbs: c.into_bigint().0 }).collect()
}

/// `EvaluationDomain::ifft` over the coset that `EvaluationDomain::get_coset`
/// makes of the domain of size `size`: as many coefficients as the domain has
/// elements, a function of the size, the offset and the values alone.
#[verifier::external_body]
fn coset_ifft(size: usize, offset: &Fr, evals: &Vec<Fr>) -> (r: Vec<Fr>)
    requires
        is_domain_size(size as nat),
        offset@ != 0,
        evals.len() == size,
    ensures
        r.len() == size,
        all_canonical(r@),
        fr_views(r@) == ifft(size as nat, offset@, fr_views(evals@)),
{
    let f = |c: &Fr| ArkFr::from(BigUint::from(BigInt(c.limbs)));
    let d = GeneralEvaluationDomain::<ArkFr>::new(size).unwrap().get_coset(f(offset)).unwrap();
    let v: Vec<ArkFr> = evals.iter().map(f).collect();
    d.ifft(&v).iter().map(|c| Fr { limbs: c.into_bigint().0 }).collect()
}

} // verus!
