//! The statement that registers data: how large the data is, and the
//! matrices that its encryption key is bound with.
use crate::error::SynthesisError;
use crate::field::{append_copy, bit_of, fr_product, fr_sum, fr_views, Fr};
use crate::gadget::hashes::mimc7::{mimc_hash, MiMC, Parameters};
use rand::rngs::StdRng;
use crate::gadget::hashes::{CRHScheme, TwoToOneCRHScheme};
use vstd::prelude::*;

verus! {

/// The sizes of one registration: the dimensions `N`, `M` and `K` of the
/// matrices, the number `Data_size` of field elements of the data and of its
/// ciphertext, which the proof commits to, and the number `Key_len` of field
/// elements of the key.
#[allow(non_camel_case_types)]
#[allow(non_snake_case)]
#[derive(Clone, Copy, Debug, PartialEq, Eq)]
pub struct Data_size {
    pub N: usize,
    pub M: usize,
    pub Data_size: usize,
    pub K: usize,
    pub Key_len: usize,
}

/// The sizes for data of 128 KB.
pub fn data_set() -> (d: Data_size)
    ensures
        d == (Data_size { N: 64, M: 65, Data_size: 4096, K: 64, Key_len: 17 }),
{
    Data_size { N: 64, M: 65, Data_size: 4096, K: 64, Key_len: 17 }
}

/// A matrix over the scalar field, row by row.
#[derive(Clone, Debug, PartialEq, Eq)]
pub struct Matrix {
    pub matrix: Vec<Vec<Fr>>,
}

/// The sum of the first `n` products `row[k] * other[k][j]`, added up in the
/// field from the left.
pub open spec fn dot(row: Seq<Fr>, other: Seq<Vec<Fr>>, j: int, n: nat) -> nat
    decreases n,
{
    if n == 0 {
        0
    } else {
        fr_sum(dot(row, other, j, (n - 1) as nat), fr_product(row[n - 1]@, other[n - 1][j]@))
    }
}

impl Matrix {
    /// The matrix with the given rows.
    pub fn new(matrix: Vec<Vec<Fr>>) -> (r: Matrix)
        ensures
            r.matrix == matrix,
    {
        Matrix { matrix }
    }

    /// Whether `self * other` is defined: both have a row, `self` has as
    /// many columns as `other` has rows, and no row is shorter than the
    /// first of its matrix.
    pub open spec fn multipliable(&self, other: &Matrix) -> bool {
        &&& self.matrix.len() >= 1
        &&& other.matrix.len() >= 1
        &&& self.matrix[0].len() == other.matrix.len()
        &&& forall|i: int|
            0 <= i < self.matrix.len() ==> (#[trigger] self.matrix[i]).len()
                >= self.matrix[0].len()
        &&& forall|k: int|
            0 <= k < other.matrix.len() ==> (#[trigger] other.matrix[k]).len()
                >= other.matrix[0].len()
    }

    /// Whether `r` is the product of `a` and `b`: it has the rows of `a` and
    /// the columns of `b`, and each entry is the row of `a` times the column
    /// of `b`.
    pub open spec fn is_product(r: &Matrix, a: &Matrix, b: &Matrix) -> bool {
        &&& r.matrix.len() == a.matrix.len()
        &&& forall|i: int|
            0 <= i < r.matrix.len() ==> (#[trigger] r.matrix[i]).len() == b.matrix[0].len()
        &&& forall|i: int, j: int|
            0 <= i < r.matrix.len() && 0 <= j < b.matrix[0].len() ==> (#[trigger] r.matrix[i][j])@
                == dot(a.matrix[i]@, b.matrix@, j, b.matrix.len() as nat)
    }

    /// The product of two matrices.
    pub fn mul(&self, other: &Matrix) -> (r: Matrix)
        requires
            self.multipliable(other),
        ensures
            Matrix::is_product(&r, self, other),
    {
        let rows = self.matrix.len();
        let inner = other.matrix.len();
        let cols = other.matrix[0].len();
        let mut result: Vec<Vec<Fr>> = Vec::new();
        let mut i: usize = 0;
        while i < rows
            invariant
                i <= rows,
                rows == self.matrix.len(),
                inner == other.matrix.len(),
                cols == other.matrix[0].len(),
                self.multipliable(other),
                result.len() == i,
                forall|a: int| 0 <= a < i ==> (#[trigger] result[a]).len() == cols,
                forall|a: int, j: int|
                    0 <= a < i && 0 <= j < cols ==> (#[trigger] result[a][j])@ == dot(
                        self.matrix[a]@,
                        other.matrix@,
                        j,
                        inner as nat,
                    ),
            decreases rows - i,
        {
            let mut row: Vec<Fr> = Vec::new();
            let mut j: usize = 0;
            while j < cols
                invariant
                    j <= cols,
                    i < rows,
                    rows == self.matrix.len(),
                    inner == other.matrix.len(),
                    cols == other.matrix[0].len(),
                    self.multipliable(other),
                    row.len() == j,
                    forall|b: int|
                        0 <= b < j ==> (#[trigger] row[b])@ == dot(
                            self.matrix[i as int]@,
                            other.matrix@,
                            b,
                            inner as nat,
                        ),
                decreases cols - j,
            {
                let mut sum = Fr::zero();
                let mut k: usize = 0;
                while k < inner
                    invariant
                        k <= inner,
                        i < rows,
                        j < cols,
                        rows == self.matrix.len(),
                        inner == other.matrix.len(),
                        cols == other.matrix[0].len(),
                        self.multipliable(other),
                        sum@ == dot(self.matrix[i as int]@, other.matrix@, j as int, k as nat),
                    decreases inner - k,
                {
                    sum = sum.add(&self.matrix[i][k].mul(&other.matrix[k][j]));
                    k += 1;
                }
                row.push(sum);
                j += 1;
            }
            result.push(row);
            i += 1;
        }
        Matrix { matrix: result }
    }
}

/// A statement that can make up values for itself.
pub trait MockingCircuit {
    type HashParam;

    type Output;

    /// Whether values are what the statement makes up.
    spec fn is_mock(c: &Self::Output) -> bool;

    /// Values for the statement, drawn from `rng`.
    fn generate_circuit(round_constants: Self::HashParam, rng: &mut StdRng) -> (r: Result<
        Self::Output,
        SynthesisError,
    >)
        ensures
            r matches Ok(c) && Self::is_mock(&c),
    ;
}

/// The values of one registration. A value that is `None` has not been
/// assigned, as none is during setup.
#[allow(non_snake_case)]
#[derive(Clone, Debug, PartialEq, Eq)]
pub struct RegisterdataCircuit {
    pub rc: Parameters,
    pub H_k: Option<Fr>,
    pub matrix_A: Option<Matrix>,
    pub CT: Option<Vec<Fr>>,
    pub data: Option<Vec<Fr>>,
    pub data_key: Option<Vec<Fr>>,
    pub matrix_R: Option<Matrix>,
    pub gamma: Option<Matrix>,
    pub sk_seller: Option<Fr>,
}

/// Bit `b` of a key: bit `b % 256` of its element `b / 256`, as zero or one.
pub open spec fn key_bit(key: Seq<Fr>, b: int) -> nat {
    if bit_of(key[b / 256]@, (b % 256) as nat) {
        1
    } else {
        0
    }
}

/// Whether `k` is the matrix of the bits of a key, row by row: `rows` rows
/// of `cols` bits.
pub open spec fn is_key_matrix(k: &Matrix, key: Seq<Fr>, rows: nat, cols: nat) -> bool {
    &&& k.matrix.len() == rows
    &&& forall|i: int| 0 <= i < rows ==> (#[trigger] k.matrix[i]).len() == cols
    &&& forall|i: int, j: int|
        0 <= i < rows && 0 <= j < cols ==> (#[trigger] k.matrix[i][j])@ == key_bit(
            key,
            i * cols + j,
        )
}

/// Whether sizes fit together and fit the machine: the matrices have rows
/// and columns, the key has a bit for each entry of its matrix, and the
/// data has no more elements than the product of the matrices has entries.
pub open spec fn sizes_fit(d: Data_size) -> bool {
    &&& d.N >= 1
    &&& d.M >= 1
    &&& d.K >= 1
    &&& d.Key_len >= 1
    &&& d.M * d.K <= d.Key_len * 256
    &&& d.Key_len * 256 <= usize::MAX
    &&& d.Data_size <= d.N * d.K
    &&& d.N * d.K <= usize::MAX
}

/// The matrix of the bits of a key.
fn key_matrix(key: &Vec<Fr>, rows: usize, cols: usize) -> (k: Matrix)
    requires
        rows * cols <= key.len() * 256,
        key.len() * 256 <= usize::MAX,
        cols >= 1,
    ensures
        is_key_matrix(&k, key@, rows as nat, cols as nat),
{
    let mut bits: Vec<bool> = Vec::new();
    let mut e: usize = 0;
    while e < key.len()
        invariant
            e <= key.len(),
            key.len() * 256 <= usize::MAX,
            bits.len() == e * 256,
            forall|b: int| 0 <= b < bits.len() ==> #[trigger] bits[b] == bit_of(
                key[b / 256]@,
                (b % 256) as nat,
            ),
        decreases key.len() - e,
    {
        let mut element = key[e].to_bits_le();
        let ghost before = bits@;
        let ghost added = element@;
        bits.append(&mut element);
        assert(bits@ == before + added);
        assert forall|b: int| 0 <= b < bits.len() implies #[trigger] bits[b] == bit_of(
            key[b / 256]@,
            (b % 256) as nat,
        ) by {
            if b >= before.len() {
                assert(bits[b] == added[b - e * 256]);
                assert(b / 256 == e && b % 256 == b - e * 256);
            }
        }
        e += 1;
    }
    let mut matrix: Vec<Vec<Fr>> = Vec::new();
    let mut i: usize = 0;
    while i < rows
        invariant
            i <= rows,
            cols >= 1,
            rows * cols <= key.len() * 256,
            bits.len() == key.len() * 256,
            key.len() * 256 <= usize::MAX,
            forall|b: int| 0 <= b < bits.len() ==> #[trigger] bits[b] == bit_of(
                key[b / 256]@,
                (b % 256) as nat,
            ),
            matrix.len() == i,
            forall|a: int| 0 <= a < i ==> (#[trigger] matrix[a]).len() == cols,
            forall|a: int, j: int|
                0 <= a < i && 0 <= j < cols ==> (#[trigger] matrix[a][j])@ == key_bit(
                    key@,
                    a * cols + j,
                ),
        decreases rows - i,
    {
        assert(i * cols + cols <= rows * cols) by (nonlinear_arith)
            requires
                i < rows,
        ;
        let mut row: Vec<Fr> = Vec::new();
        let mut j: usize = 0;
        while j < cols
            invariant
                j <= cols,
                i * cols + cols <= bits.len(),
                forall|b: int| 0 <= b < bits.len() ==> #[trigger] bits[b] == bit_of(
                    key[b / 256]@,
                    (b % 256) as nat,
                ),
                row.len() == j,
                forall|c: int| 0 <= c < j ==> (#[trigger] row[c])@ == key_bit(key@, i * cols + c),
            decreases cols - j,
        {
            row.push(Fr::from_bool(bits[i * cols + j]));
            j += 1;
        }
        matrix.push(row);
        i += 1;
    }
    Matrix { matrix }
}

/// A matrix of random entries.
fn random_matrix(rows: usize, cols: usize, rng: &mut StdRng) -> (m: Matrix)
    ensures
        m.matrix.len() == rows,
        forall|i: int| 0 <= i < rows ==> (#[trigger] m.matrix[i]).len() == cols,
{
    let mut matrix: Vec<Vec<Fr>> = Vec::new();
    let mut i: usize = 0;
    while i < rows
        invariant
            i <= rows,
            matrix.len() == i,
            forall|a: int| 0 <= a < i ==> (#[trigger] matrix[a]).len() == cols,
        decreases rows - i,
    {
        matrix.push(random_vector(cols, rng));
        i += 1;
    }
    Matrix { matrix }
}

/// A vector of random entries.
fn random_vector(n: usize, rng: &mut StdRng) -> (v: Vec<Fr>)
    ensures
        v.len() == n,
{
    let mut v: Vec<Fr> = Vec::new();
    let mut i: usize = 0;
    while i < n
        invariant
            i <= n,
            v.len() == i,
        decreases n - i,
    {
        v.push(Fr::rand(rng));
        i += 1;
    }
    v
}

impl RegisterdataCircuit {
    /// Whether every value is assigned.
    pub open spec fn assigned(&self) -> bool {
        &&& self.H_k.is_some()
        &&& self.matrix_A.is_some()
        &&& self.CT.is_some()
        &&& self.data.is_some()
        &&& self.data_key.is_some()
        &&& self.matrix_R.is_some()
        &&& self.gamma.is_some()
        &&& self.sk_seller.is_some()
    }

    /// Whether assigned values belong together for the sizes `d`: the
    /// matrix `matrix_R` is `matrix_A` times the matrix of the key's bits;
    /// each element of the ciphertext is the element of the data plus the
    /// entry of `matrix_R` in its place; and `H_k` is the hash of the key
    /// followed by the seller's secret.
    pub open spec fn consistent(&self, d: Data_size) -> bool {
        let r = self.matrix_R.unwrap();
        let data = self.data.unwrap();
        let ct = self.CT.unwrap();
        &&& exists|k: Matrix|
            is_key_matrix(&k, self.data_key.unwrap()@, d.M as nat, d.K as nat)
                && Matrix::is_product(&r, &self.matrix_A.unwrap(), &k)
        &&& data.len() == d.Data_size
        &&& ct.len() == d.Data_size
        &&& forall|i: int|
            0 <= i < d.Data_size ==> (#[trigger] ct[i])@ == fr_sum(
                data[i]@,
                r.matrix[i / (d.K as int)][i % (d.K as int)]@,
            )
        &&& self.H_k.unwrap()@ == mimc_hash(
            self.rc@,
            fr_views(self.data_key.unwrap()@.push(self.sk_seller.unwrap())),
        )
    }

    /// A registration of random data under a random key, for the sizes `d`.
    pub fn generate_circuit_of_sizes(round_constants: Parameters, d: &Data_size, rng: &mut StdRng) -> (r:
        Result<RegisterdataCircuit, SynthesisError>)
        requires
            sizes_fit(*d),
        ensures
            r matches Ok(c) && c.assigned() && c.consistent(*d),
    {
        let rc = round_constants;
        let data = random_vector(d.Data_size, rng);
        let matrix_a = random_matrix(d.N, d.M, rng);
        let basefield_key = random_vector(d.Key_len, rng);
        let matrix_k = key_matrix(&basefield_key, d.M, d.K);
        let matrix_r = matrix_a.mul(&matrix_k);
        let sk_seller = Fr::rand(rng);
        let mut key_and_secret: Vec<Fr> = Vec::new();
        append_copy(&mut key_and_secret, &basefield_key);
        key_and_secret.push(sk_seller);
        assert(key_and_secret@ =~= basefield_key@.push(sk_seller));
        let h_k = MiMC::evaluate(&rc, key_and_secret.as_slice())?;

        let mut ct: Vec<Fr> = Vec::new();
        let mut i: usize = 0;
        while i < d.Data_size
            invariant
                i <= d.Data_size,
                sizes_fit(*d),
                data.len() == d.Data_size,
                matrix_r.matrix.len() == d.N,
                forall|a: int| 0 <= a < d.N ==> (#[trigger] matrix_r.matrix[a]).len() == d.K,
                ct.len() == i,
                forall|j: int|
                    0 <= j < i ==> (#[trigger] ct[j])@ == fr_sum(
                        data[j]@,
                        matrix_r.matrix[j / (d.K as int)][j % (d.K as int)]@,
                    ),
            decreases d.Data_size - i,
        {
            assert(i / d.K < d.N) by (nonlinear_arith)
                requires
                    i < d.N * d.K,
                    d.K >= 1,
            ;
            assert(i % d.K < d.K);
            ct.push(data[i].add(&matrix_r.matrix[i / d.K][i % d.K]));
            i += 1;
        }
        let gamma = random_matrix(d.K, 1, rng);
        let circuit = RegisterdataCircuit {
            rc,
            H_k: Some(h_k),
            matrix_A: Some(matrix_a),
            CT: Some(ct),
            data: Some(data),
            data_key: Some(basefield_key),
            matrix_R: Some(matrix_r),
            gamma: Some(gamma),
            sk_seller: Some(sk_seller),
        };
        proof {
            assert(is_key_matrix(&matrix_k, circuit.data_key.unwrap()@, d.M as nat, d.K as nat)
                && Matrix::is_product(
                &circuit.matrix_R.unwrap(),
                &circuit.matrix_A.unwrap(),
                &matrix_k,
            ));
            assert(circuit.H_k.unwrap()@ == mimc_hash(
                circuit.rc@,
                fr_views(circuit.data_key.unwrap()@.push(circuit.sk_seller.unwrap())),
            ));
        }
        Ok(circuit)
    }
}

impl MockingCircuit for RegisterdataCircuit {
    type HashParam = Parameters;

    type Output = RegisterdataCircuit;

    open spec fn is_mock(c: &RegisterdataCircuit) -> bool {
        c.assigned() && c.consistent(
            Data_size { N: 64, M: 65, Data_size: 4096, K: 64, Key_len: 17 },
        )
    }

    /// A registration of random data under a random key, for data of 128 KB.
    fn generate_circuit(round_constants: Parameters, rng: &mut StdRng) -> (r: Result<
        RegisterdataCircuit,
        SynthesisError,
    >) {
        let d = data_set();
        RegisterdataCircuit::generate_circuit_of_sizes(round_constants, &d, rng)
    }
}

} // verus!
